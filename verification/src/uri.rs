//! KBS resource addresses.
//!
//! The textual form is `kbs://<addr>/<repository>/<type>/<tag>`; the address
//! part is usually empty (`kbs:///...`), and the repository defaults to
//! `default` when the path holds only two segments.  The grammar is specified
//! by [`split_on`] and parsing is verified against it.

use vstd::prelude::*;
use vstd::string::*;
use crate::error::Error;
use crate::strutil::{find_char_from, substring};

verus! {

/// Split `s` on every occurrence of `c`.  The result always holds one more
/// element than there are occurrences of `c`; segments may be empty.
pub open spec fn split_on(s: Seq<char>, c: char) -> Seq<Seq<char>>
    decreases s.len(),
{
    if s.len() == 0 {
        seq![Seq::<char>::empty()]
    } else {
        let rest = split_on(s.drop_first(), c);
        if s[0] == c {
            seq![Seq::<char>::empty()] + rest
        } else {
            seq![seq![s[0]] + rest[0]] + rest.drop_first()
        }
    }
}

/// `split_on` yields at least one segment.
pub proof fn lemma_split_on_len(s: Seq<char>, c: char)
    ensures
        split_on(s, c).len() >= 1,
    decreases s.len(),
{
    if s.len() > 0 {
        lemma_split_on_len(s.drop_first(), c);
    }
}

/// If the first occurrence of `c` in `s` is at `k`, splitting takes the
/// prefix up to `k` as first segment and recurses after it; if there is no
/// occurrence, `s` is the one segment.
pub proof fn lemma_split_on_first(s: Seq<char>, c: char, k: int)
    requires
        0 <= k <= s.len(),
        forall|j: int| 0 <= j < k ==> s[j] != c,
        k < s.len() ==> s[k] == c,
    ensures
        k == s.len() ==> split_on(s, c) == seq![s],
        k < s.len() ==> split_on(s, c) == seq![s.subrange(0, k)] + split_on(
            s.subrange(k + 1, s.len() as int),
            c,
        ),
    decreases s.len(),
{
    if s.len() == 0 {
        assert(split_on(s, c) =~~= seq![s]);
    } else if k == 0 {
        lemma_split_on_len(s.drop_first(), c);
        if k < s.len() {
            assert(s.subrange(0, 0) =~= Seq::<char>::empty());
            assert(s.subrange(1, s.len() as int) =~= s.drop_first());
            assert(split_on(s, c) =~~= seq![s.subrange(0, k)] + split_on(
                s.subrange(k + 1, s.len() as int),
                c,
            ));
        }
    } else {
        let d = s.drop_first();
        lemma_split_on_len(d, c);
        lemma_split_on_first(d, c, k - 1);
        if k == s.len() {
            assert(split_on(d, c) == seq![d]);
            assert(seq![s[0]] + d =~= s);
            assert(split_on(s, c) =~~= seq![s]);
        } else {
            assert(d.subrange(0, k - 1) =~= s.subrange(1, k));
            assert(seq![s[0]] + s.subrange(1, k) =~= s.subrange(0, k));
            assert(d.subrange(k, d.len() as int) =~= s.subrange(k + 1, s.len() as int));
            assert(split_on(s, c) =~~= seq![s.subrange(0, k)] + split_on(
                s.subrange(k + 1, s.len() as int),
                c,
            ));
        }
    }
}

/// Split a string on `c`, verified against [`split_on`].
pub fn split_str(s: &str, c: char) -> (r: Vec<String>)
    ensures
        r@.map_values(|p: String| p@) == split_on(s@, c),
{
    let len = s.unicode_len();
    let mut parts: Vec<String> = Vec::new();
    let mut start: usize = 0;
    proof {
        assert(s@.subrange(0, len as int) =~= s@);
        assert(parts@.map_values(|p: String| p@) + split_on(s@.subrange(0, len as int), c)
            =~~= split_on(s@, c));
    }
    loop
        invariant
            len == s@.len(),
            0 <= start <= len,
            split_on(s@, c) == parts@.map_values(|p: String| p@) + split_on(
                s@.subrange(start as int, len as int),
                c,
            ),
        decreases len - start,
    {
        let ghost tail = s@.subrange(start as int, len as int);
        match find_char_from(s, c, start) {
            Some(i) => {
                let seg = substring(s, start, i);
                proof {
                    lemma_split_on_first(tail, c, i - start);
                    assert(tail.subrange(0, i - start) =~= s@.subrange(start as int, i as int));
                    assert(tail.subrange(i - start + 1, tail.len() as int) =~= s@.subrange(
                        i + 1,
                        len as int,
                    ));
                }
                parts.push(seg);
                proof {
                    assert(parts@.map_values(|p: String| p@) =~~= parts@.drop_last().map_values(
                        |p: String| p@,
                    ) + seq![s@.subrange(start as int, i as int)]);
                    assert(split_on(s@, c) =~~= parts@.map_values(|p: String| p@) + split_on(
                        s@.subrange(i + 1, len as int),
                        c,
                    ));
                }
                start = i + 1;
            },
            None => {
                let seg = substring(s, start, len);
                proof {
                    lemma_split_on_first(tail, c, tail.len() as int);
                }
                parts.push(seg);
                proof {
                    assert(parts@.map_values(|p: String| p@) =~~= parts@.drop_last().map_values(
                        |p: String| p@,
                    ) + seq![tail]);
                    assert(parts@.map_values(|p: String| p@) =~~= split_on(s@, c));
                }
                return parts;
            },
        }
    }
}

/// The address of a resource held by a KBS.
#[derive(Debug, Clone)]
pub struct ResourceUri {
    /// The KBS address named in the URI; usually empty.
    pub kbs_addr: String,
    /// The repository; `default` where the URI leaves it out.
    pub repository: String,
    /// The resource type.
    pub resource_type: String,
    /// The resource tag.
    pub tag: String,
}

/// The scheme prefix of every resource URI.
pub open spec fn scheme_spec() -> Seq<char> {
    "kbs://"@
}

impl ResourceUri {
    /// A well-formed address: every component free of `/`, the path
    /// components non-empty.
    pub open spec fn wf(self) -> bool {
        &&& forall|j: int| 0 <= j < self.kbs_addr@.len() ==> self.kbs_addr@[j] != '/'
        &&& forall|j: int| 0 <= j < self.repository@.len() ==> self.repository@[j] != '/'
        &&& forall|j: int| 0 <= j < self.resource_type@.len() ==> self.resource_type@[j] != '/'
        &&& forall|j: int| 0 <= j < self.tag@.len() ==> self.tag@[j] != '/'
        &&& self.repository@.len() > 0
        &&& self.resource_type@.len() > 0
        &&& self.tag@.len() > 0
    }

    /// The segments after `kbs://`, split on `/`.
    pub open spec fn segments_spec(self) -> Seq<Seq<char>> {
        seq![self.kbs_addr@, self.repository@, self.resource_type@, self.tag@]
    }

    /// Does `s` read as this URI?  Either all three path segments are
    /// spelled out, or the repository is `default` and left out.
    pub open spec fn is_parse_of(self, s: Seq<char>) -> bool {
        &&& self.wf()
        &&& {
            ||| split_on(s, '/') == seq!["kbs:"@, ""@] + self.segments_spec()
            ||| (self.repository@ == "default"@ && split_on(s, '/') == seq!["kbs:"@, ""@, self.kbs_addr@, self.resource_type@, self.tag@])
        }
    }

    /// Parse the textual form; `Ok` exactly on well-formed URIs.
    pub fn try_from(s: &str) -> (r: Result<ResourceUri, Error>)
        ensures
            r matches Ok(u) ==> u.is_parse_of(s@),
            r is Err ==> forall|u: ResourceUri| !#[trigger] u.is_parse_of(s@),
            r matches Err(e) ==> e is Parse,
    {
        let parts = split_str(s, '/');
        let ghost sp = split_on(s@, '/');
        proof {
            reveal_strlit("");
            assert(sp == parts@.map_values(|p: String| p@));
            assert(forall|i: int| 0 <= i < parts@.len() ==> #[trigger] parts@[i]@ == sp[i]);
        }
        if parts.len() != 5 && parts.len() != 6 {
            proof {
                assert forall|u: ResourceUri| !#[trigger] u.is_parse_of(s@) by {
                    assert(u.is_parse_of(s@) ==> sp.len() == 5 || sp.len() == 6);
                }
            }
            return Err(Error::Parse(String::from_str(
                "resource URI must have a kbs:// scheme and 2 or 3 path segments",
            )));
        }
        let ok_scheme = crate::strutil::str_eq(parts[0].as_str(), "kbs:") && parts[1].as_str().unicode_len() == 0;
        if !ok_scheme {
            proof {
                assert forall|u: ResourceUri| !#[trigger] u.is_parse_of(s@) by {
                    if u.is_parse_of(s@) {
                        assert(sp[0] == "kbs:"@);
                        assert(sp[1] == ""@);
                        assert(sp[1].len() == 0);
                    }
                }
            }
            return Err(Error::Parse(String::from_str("resource URI must start with kbs://")));
        }
        proof {
            lemma_split_segments_free(s@, '/', 2);
            lemma_split_segments_free(s@, '/', 3);
            lemma_split_segments_free(s@, '/', 4);
            if sp.len() == 6 {
                lemma_split_segments_free(s@, '/', 5);
            }
        }
        if parts.len() == 6 {
            let seg_empty = parts[3].as_str().unicode_len() == 0 || parts[4].as_str().unicode_len()
                == 0 || parts[5].as_str().unicode_len() == 0;
            if seg_empty {
                proof {
                    assert forall|u: ResourceUri| !#[trigger] u.is_parse_of(s@) by {
                        if u.is_parse_of(s@) {
                            assert(sp[3] == u.repository@);
                            assert(sp[4] == u.resource_type@);
                            assert(sp[5] == u.tag@);
                        }
                    }
                }
                return Err(Error::Parse(String::from_str(
                    "resource URI has an empty path segment",
                )));
            }
            let u = ResourceUri {
                kbs_addr: parts[2].clone(),
                repository: parts[3].clone(),
                resource_type: parts[4].clone(),
                tag: parts[5].clone(),
            };
            proof {
                assert(!sp[2].contains('/') && !sp[3].contains('/') && !sp[4].contains('/')
                    && !sp[5].contains('/'));
                assert(forall|j: int| 0 <= j < u.kbs_addr@.len() ==> u.kbs_addr@[j] != '/');
                assert(forall|j: int| 0 <= j < u.repository@.len() ==> u.repository@[j] != '/');
                assert(forall|j: int| 0 <= j < u.resource_type@.len() ==> u.resource_type@[j]
                    != '/');
                assert(forall|j: int| 0 <= j < u.tag@.len() ==> u.tag@[j] != '/');
                assert(sp =~~= seq!["kbs:"@, ""@] + u.segments_spec());
            }
            Ok(u)
        } else {
            let seg_empty = parts[3].as_str().unicode_len() == 0 || parts[4].as_str().unicode_len()
                == 0;
            if seg_empty {
                proof {
                    assert forall|u: ResourceUri| !#[trigger] u.is_parse_of(s@) by {
                        if u.is_parse_of(s@) {
                            assert(sp[3] == u.resource_type@);
                            assert(sp[4] == u.tag@);
                        }
                    }
                }
                return Err(Error::Parse(String::from_str(
                    "resource URI has an empty path segment",
                )));
            }
            let u = ResourceUri {
                kbs_addr: parts[2].clone(),
                repository: String::from_str("default"),
                resource_type: parts[3].clone(),
                tag: parts[4].clone(),
            };
            proof {
                reveal_strlit("default");
                assert(u.repository@ == "default"@);
                assert(u.repository@.len() == 7);
                assert(forall|j: int| 0 <= j < u.repository@.len() ==> u.repository@[j] != '/');
                assert(!sp[2].contains('/') && !sp[3].contains('/') && !sp[4].contains('/'));
                assert(forall|j: int| 0 <= j < u.kbs_addr@.len() ==> u.kbs_addr@[j] != '/');
                assert(forall|j: int| 0 <= j < u.resource_type@.len() ==> u.resource_type@[j]
                    != '/');
                assert(forall|j: int| 0 <= j < u.tag@.len() ==> u.tag@[j] != '/');
                assert(sp =~~= seq!["kbs:"@, ""@, u.kbs_addr@, u.resource_type@, u.tag@]);
            }
            Ok(u)
        }
    }

    /// The path under which the KBS serves this resource.
    pub fn resource_path(&self) -> (r: String)
        ensures
            r@ == self.repository@ + "/"@ + self.resource_type@ + "/"@ + self.tag@,
    {
        let mut out = self.repository.clone();
        out.append("/");
        out.append(self.resource_type.as_str());
        out.append("/");
        out.append(self.tag.as_str());
        out
    }

    /// The full textual form, `kbs://<addr>/<repo>/<type>/<tag>`.
    pub fn whole_uri(&self) -> (r: String)
        ensures
            r@ == scheme_spec() + self.kbs_addr@ + "/"@ + self.repository@ + "/"@
                + self.resource_type@ + "/"@ + self.tag@,
    {
        let mut out = String::from_str("kbs://");
        out.append(self.kbs_addr.as_str());
        out.append("/");
        out.append(self.repository.as_str());
        out.append("/");
        out.append(self.resource_type.as_str());
        out.append("/");
        out.append(self.tag.as_str());
        out
    }
}

/// No segment of a split contains the separator.
pub proof fn lemma_split_segments_free(s: Seq<char>, c: char, i: int)
    requires
        0 <= i < split_on(s, c).len(),
    ensures
        !split_on(s, c)[i].contains(c),
    decreases s.len(),
{
    if s.len() == 0 {
    } else {
        let rest = split_on(s.drop_first(), c);
        lemma_split_on_len(s.drop_first(), c);
        if s[0] == c {
            if i >= 1 {
                lemma_split_segments_free(s.drop_first(), c, i - 1);
            }
        } else {
            if i == 0 {
                lemma_split_segments_free(s.drop_first(), c, 0);
                assert(split_on(s, c)[0] == seq![s[0]] + rest[0]);
                assert forall|j: int| 0 <= j < split_on(s, c)[0].len() implies split_on(s, c)[0][j]
                    != c by {
                    if j > 0 {
                        assert(split_on(s, c)[0][j] == rest[0][j - 1]);
                        assert(!rest[0].contains(c));
                    }
                }
            } else {
                lemma_split_segments_free(s.drop_first(), c, i);
            }
        }
    }
}

} // verus!
