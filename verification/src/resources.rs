//! Asset identifiers: a namespace and a path, parsed from the textual form
//! `namespace:path`. Loading the asset bytes themselves is the embedder's
//! work; this module owns the naming rules.

use vstd::prelude::*;
use vstd::string::{StrSliceExecFns, StringExecFns};
use vstd::utf8::{encode_utf8, valid_utf8};

verus! {

/// `i` is the first colon of `s`.
pub open spec fn is_first_colon(s: Seq<char>, i: int) -> bool {
    &&& 0 <= i < s.len()
    &&& s[i] == ':'
    &&& forall|j: int| 0 <= j < i ==> s[j] != ':'
}

/// A namespaced asset name.
#[derive(Debug, Clone, Copy)]
pub struct Identifier<'a> {
    pub namespace: &'a str,
    pub path: &'a str,
}

impl<'a> Identifier<'a> {
    pub fn new(namespace: &'a str, path: &'a str) -> (r: Identifier<'a>)
        ensures
            r.namespace@ == namespace@,
            r.path@ == path@,
    {
        Identifier { namespace, path }
    }

    /// The relative location of the asset under the asset store root:
    /// `assets/<namespace>/<path>`.
    pub fn asset_path(&self) -> (r: String)
        ensures
            r@ == "assets/"@ + self.namespace@ + "/"@ + self.path@,
    {
        let mut s = String::from_str("assets/");
        s.append(self.namespace);
        s.append("/");
        s.append(self.path);
        s
    }

    /// Splits a textual identifier into `[namespace, path]`. Without a
    /// colon the whole text is the path in the default namespace; with one,
    /// the text before the first colon is the namespace (unless it is
    /// empty, which falls back to the default) and the text after it is the
    /// path.
    pub fn split(value: &'a str) -> (r: Vec<&'a str>)
        ensures
            r@.len() == 2,
            (forall|j: int| 0 <= j < value@.len() ==> value@[j] != ':') ==> r@[0]@
                == "minecraft"@ && r@[1]@ == value@,
            forall|i: int|
                is_first_colon(value@, i) ==> r@[1]@ == value@.subrange(
                    i + 1,
                    value@.len() as int,
                ) && r@[0]@ == if i >= 1 {
                    value@.subrange(0, i)
                } else {
                    "minecraft"@
                },
    {
        let n = value.unicode_len();
        let mut i: usize = 0;
        let mut found = false;
        while i < n && !found
            invariant
                n == value@.len(),
                i <= n,
                found ==> i < n && value@[i as int] == ':',
                forall|j: int| 0 <= j < i ==> value@[j] != ':',
            decreases n - i, if found { 0int } else { 1int },
        {
            if value.get_char(i) == ':' {
                found = true;
            } else {
                i = i + 1;
            }
        }
        let mut parts: Vec<&'a str> = Vec::new();
        if found {
            let path = value.substring_char(i + 1, n);
            if i >= 1 {
                let namespace = value.substring_char(0, i);
                parts.push(namespace);
            } else {
                parts.push("minecraft");
            }
            parts.push(path);
            proof {
                assert(is_first_colon(value@, i as int));
                assert forall|k: int| is_first_colon(value@, k) implies k == i as int by {
                    if k < i {
                        assert(value@[k] != ':');
                    }
                    if k > i {
                        assert(value@[i as int] != ':');
                    }
                }
            }
        } else {
            parts.push("minecraft");
            parts.push(value);
            proof {
                assert(forall|j: int| 0 <= j < value@.len() ==> value@[j] != ':');
                assert(forall|k: int| !is_first_colon(value@, k));
            }
        }
        parts
    }
}


/// The embedded asset store. Locating and reading an asset's bytes is the
/// embedder's work; decoding them into text happens here.
pub struct Resources;

/// Relies on String::from_utf8: it succeeds exactly on valid UTF-8 input
/// and the returned text encodes back to the input bytes.
#[verifier::external_body]
fn utf8_to_string(data: Vec<u8>) -> (r: Option<String>)
    ensures
        r is Some <==> valid_utf8(data@),
        r matches Some(s) ==> encode_utf8(s@) =~= data@,
{
    String::from_utf8(data).ok()
}

impl Resources {
    /// Decodes the bytes of a loaded asset as UTF-8 text; no asset found
    /// means no text. Asset files that are not valid UTF-8 are a packaging
    /// error and are excluded outright.
    pub fn get_utf8(file: Option<Vec<u8>>) -> (r: Option<String>)
        requires
            file matches Some(d) ==> valid_utf8(d@),
        ensures
            r is Some <==> file is Some,
            r matches Some(s) ==> encode_utf8(s@) =~= (file->0)@,
    {
        match file {
            None => None,
            Some(data) => {
                let decoded = utf8_to_string(data);
                match decoded {
                    Some(v) => Some(v),
                    None => {
                        proof {
                            assert(false);
                        }
                        None
                    },
                }
            },
        }
    }
}

} // verus!
