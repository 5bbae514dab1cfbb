//! TEE platform kinds and their wire tags.
//!
//! The evidence agent reports the platform as a JSON string holding a
//! lowercase tag (for example `"sgx"`, with the quotes); the handshake sends
//! the same tag in the `tee` field of the auth request.

use vstd::prelude::*;
use vstd::string::*;
use crate::strutil::{str_eq, substring};

verus! {

/// The trusted execution environments the hub can attest.
#[derive(Debug, Clone, Copy, PartialEq, Eq, Structural)]
pub enum Tee {
    AzSnpVtpm,
    Cca,
    Sev,
    Sgx,
    Snp,
    Tdx,
    /// Test stub; not a real platform.
    Sample,
}

impl Tee {
    /// The lowercase wire tag of the platform.
    pub open spec fn tag_spec(self) -> Seq<char> {
        match self {
            Tee::AzSnpVtpm => "azsnpvtpm"@,
            Tee::Cca => "cca"@,
            Tee::Sev => "sev"@,
            Tee::Sgx => "sgx"@,
            Tee::Snp => "snp"@,
            Tee::Tdx => "tdx"@,
            Tee::Sample => "sample"@,
        }
    }

    /// The lowercase wire tag as a string.
    pub fn tag(&self) -> (r: &'static str)
        ensures
            r@ == self.tag_spec(),
    {
        match self {
            Tee::AzSnpVtpm => "azsnpvtpm",
            Tee::Cca => "cca",
            Tee::Sev => "sev",
            Tee::Sgx => "sgx",
            Tee::Snp => "snp",
            Tee::Tdx => "tdx",
            Tee::Sample => "sample",
        }
    }

    /// Parse a bare lowercase tag; accepts exactly the seven tags.
    pub fn from_tag(s: &str) -> (r: Option<Tee>)
        ensures
            r matches Some(t) ==> s@ == t.tag_spec(),
            r is None ==> forall|t: Tee| s@ != #[trigger] t.tag_spec(),
    {
        if str_eq(s, "azsnpvtpm") {
            Some(Tee::AzSnpVtpm)
        } else if str_eq(s, "cca") {
            Some(Tee::Cca)
        } else if str_eq(s, "sev") {
            Some(Tee::Sev)
        } else if str_eq(s, "sgx") {
            Some(Tee::Sgx)
        } else if str_eq(s, "snp") {
            Some(Tee::Snp)
        } else if str_eq(s, "tdx") {
            Some(Tee::Tdx)
        } else if str_eq(s, "sample") {
            Some(Tee::Sample)
        } else {
            None
        }
    }

    /// Parse the agent's answer: a JSON string literal, i.e. the tag between
    /// double quotes, as in `"sgx"`.
    pub fn from_json_tag(s: &str) -> (r: Option<Tee>)
        ensures
            r matches Some(t) ==> s@ == seq!['"'] + t.tag_spec() + seq!['"'],
            r is None ==> forall|t: Tee| s@ != seq!['"'] + #[trigger] t.tag_spec() + seq!['"'],
    {
        let len = s.unicode_len();
        let quoted = len >= 2 && s.get_char(0) == '"' && s.get_char(len - 1) == '"';
        if !quoted {
            proof {
                assert forall|t: Tee| s@ != seq!['"'] + #[trigger] t.tag_spec() + seq!['"'] by {
                    let q = seq!['"'] + t.tag_spec() + seq!['"'];
                    assert(q.len() == t.tag_spec().len() + 2);
                    assert(q[0] == '"');
                    assert(q[q.len() - 1] == '"');
                }
            }
            return None;
        }
        let inner = substring(s, 1, len - 1);
        let parsed = Tee::from_tag(inner.as_str());
        proof {
            if let Some(t) = parsed {
                assert(s@ =~= seq!['"'] + t.tag_spec() + seq!['"']);
            } else {
                assert forall|t: Tee| s@ != seq!['"'] + #[trigger] t.tag_spec() + seq!['"'] by {
                    if s@ == seq!['"'] + t.tag_spec() + seq!['"'] {
                        assert(inner@ =~= t.tag_spec());
                    }
                }
            }
        }
        parsed
    }
}

/// Distinct platforms have distinct wire tags: parsing a tag yields
/// exactly the platform that wrote it.  Together with the contracts of
/// [`Tee::from_tag`] and [`Tee::from_json_tag`], this makes the parse of
/// each quoted lowercase tag round-trip to its variant.
pub proof fn lemma_tee_tag_injective(t1: Tee, t2: Tee)
    ensures
        t1.tag_spec() == t2.tag_spec() ==> t1 == t2,
{
    reveal_strlit("azsnpvtpm");
    reveal_strlit("cca");
    reveal_strlit("sev");
    reveal_strlit("sgx");
    reveal_strlit("snp");
    reveal_strlit("tdx");
    reveal_strlit("sample");
    assert("azsnpvtpm"@.len() == 9 && "cca"@.len() == 3 && "sev"@.len() == 3 && "sgx"@.len() == 3
        && "snp"@.len() == 3 && "tdx"@.len() == 3 && "sample"@.len() == 6);
    assert("cca"@[0] != "sev"@[0] && "cca"@[0] != "sgx"@[0] && "cca"@[0] != "snp"@[0]
        && "cca"@[0] != "tdx"@[0]);
    assert("sev"@[1] != "sgx"@[1] && "sev"@[1] != "snp"@[1] && "sev"@[0] != "tdx"@[0]);
    assert("sgx"@[1] != "snp"@[1] && "sgx"@[0] != "tdx"@[0] && "snp"@[0] != "tdx"@[0]);
}

} // verus!
