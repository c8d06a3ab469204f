//! Decoding a fetched source manifest and looking a package up in it.
//!
//! A source manifest is a flat JSON object mapping package names to
//! download URLs. The JSON decoding is delegated to `serde_json`; the
//! lookup over the decoded entries is the library's own, verified logic.
//! An entry's value is `Some(url)` when the manifest maps the key to a
//! JSON string, and `None` when it maps it to any other JSON value.

use vstd::prelude::*;

verus! {

/// What `serde_json` decodes a manifest body to: the key/value entries of
/// the JSON object the body denotes, or nothing when the body is not a
/// JSON object. The decoding is a function of the body text alone.
pub uninterp spec fn manifest_entries(body: Seq<char>) -> Option<Seq<(String, Option<String>)>>;

/// Relies on `serde_json::from_str` for `serde_json::Map<String, Value>`,
/// which decodes exactly the JSON objects, and on the `Value::String`
/// variant holding the text of a JSON string. The decoded entries are a
/// function of the body alone: the map is backed by a `BTreeMap`, so its
/// iteration order is determined by its keys.
#[verifier::external_body]
pub(crate) fn decode_manifest(body: &str) -> (r: Option<Vec<(String, Option<String>)>>)
    ensures
        match r {
            Some(v) => manifest_entries(body@) == Some(v@),
            None => manifest_entries(body@) is None,
        },
{
    match serde_json::from_str::<serde_json::Map<String, serde_json::Value>>(body) {
        Ok(object) => Some(
            object
                .into_iter()
                .map(|(key, value)| match value {
                    serde_json::Value::String(s) => (key, Some(s)),
                    _ => (key, None),
                })
                .collect(),
        ),
        Err(_) => None,
    }
}

/// The URL the entries give for `package`: the value of the first entry
/// whose key is `package`, provided that value is a string.
pub open spec fn entries_lookup(entries: Seq<(String, Option<String>)>, package: Seq<char>) -> Option<
    String,
>
    decreases entries.len(),
{
    if entries.len() == 0 {
        None
    } else if entries[0].0@ == package {
        entries[0].1
    } else {
        entries_lookup(entries.drop_first(), package)
    }
}

/// The URL a fetched body yields for `package`: nothing when the fetch
/// failed, the body is not a JSON object, the key is absent, or its value
/// is not a string.
pub open spec fn body_lookup(body: Option<String>, package: Seq<char>) -> Option<String> {
    match body {
        Some(b) => match manifest_entries(b@) {
            Some(entries) => entries_lookup(entries, package),
            None => None,
        },
        None => None,
    }
}

proof fn lemma_entries_lookup_skip(
    entries: Seq<(String, Option<String>)>,
    package: Seq<char>,
    i: int,
)
    requires
        0 <= i <= entries.len(),
        forall|j: int| 0 <= j < i ==> #[trigger] entries[j].0@ != package,
    ensures
        entries_lookup(entries, package) == entries_lookup(entries.skip(i), package),
    decreases i,
{
    if i > 0 {
        lemma_entries_lookup_skip(entries.drop_first(), package, i - 1);
        assert(entries.drop_first().skip(i - 1) =~= entries.skip(i));
        assert forall|j: int| 0 <= j < i - 1 implies #[trigger] entries.drop_first()[j].0@
            != package by {
            assert(entries.drop_first()[j] == entries[j + 1]);
        }
    } else {
        assert(entries.skip(0) =~= entries);
    }
}

/// Looks `package` up in the decoded entries of a manifest.
pub fn lookup_package(entries: &Vec<(String, Option<String>)>, package: &String) -> (r: Option<
    String,
>)
    ensures
        r == entries_lookup(entries@, package@),
{
    let n: usize = entries.len();
    let mut i: usize = 0;
    while i < n
        invariant
            0 <= i <= n,
            n == entries@.len(),
            forall|j: int| 0 <= j < i ==> #[trigger] entries@[j].0@ != package@,
        decreases n - i,
    {
        if entries[i].0 == *package {
            proof {
                lemma_entries_lookup_skip(entries@, package@, i as int);
                assert(entries@.skip(i as int)[0] == entries@[i as int]);
            }
            return match &entries[i].1 {
                Some(url) => Some(url.clone()),
                None => None,
            };
        }
        i = i + 1;
    }
    proof {
        lemma_entries_lookup_skip(entries@, package@, n as int);
        assert(entries@.skip(n as int) =~= Seq::<(String, Option<String>)>::empty());
    }
    None
}

} // verus!
