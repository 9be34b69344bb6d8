//! The parameters of a connection as they are stored.
use vstd::prelude::*;

use crate::model::params_view;
use crate::text::precedes;

verus! {

/// Whether no key occurs twice and the keys are in the order of strings.
pub open spec fn is_canonical(params: Seq<(Seq<char>, Seq<char>)>) -> bool {
    forall|i: int, j: int|
        0 <= i < j < params.len() ==> precedes(#[trigger] params[i].0, #[trigger] params[j].0)
}

/// What `serde_json` writes for a map of texts with these entries in this order.
pub uninterp spec fn params_json(params: Seq<(Seq<char>, Seq<char>)>) -> Seq<char>;

/// The entries of the map of texts that `serde_json` reads, in the order of their keys, or
/// nothing where the text is not a JSON object of texts.
pub uninterp spec fn json_params(text: Seq<char>) -> Option<Seq<(Seq<char>, Seq<char>)>>;

/// Calls `collect_map` of a `serde_json::Serializer`, which writes a JSON object with these
/// entries. Where no key occurs twice and the keys are in order, `serde_json` reads the
/// same entries back. Without entries the object is `{}`.
#[verifier::external_body]
pub(crate) fn write_params(params: &Vec<(String, String)>) -> (r: String)
    ensures
        r@ == params_json(params_view(params@)),
        is_canonical(params_view(params@)) ==> json_params(r@) == Some(params_view(params@)),
        params@.len() == 0 ==> r@ == "{}"@,
{
    let mut out: Vec<u8> = Vec::new();
    let mut writer = serde_json::Serializer::new(&mut out);
    let pairs = params.iter().map(|(key, value)| (key, value));
    let _ = serde::Serializer::collect_map(&mut writer, pairs);
    String::from_utf8(out).unwrap_or_default()
}

/// Calls `serde_json::from_str` for a map of texts. The entries come out in the order of
/// their keys, as those of a `BTreeMap` do. `{}` has none.
#[verifier::external_body]
pub(crate) fn read_params(text: &str) -> (r: Option<Vec<(String, String)>>)
    ensures
        r is Some <==> json_params(text@) is Some,
        r is Some ==> params_view(r->0@) == json_params(text@)->0,
        r is Some ==> is_canonical(params_view(r->0@)),
        text@ == "{}"@ ==> (r is Some && r->0@.len() == 0),
{
    let map = serde_json::from_str::<std::collections::BTreeMap<String, String>>(text).ok()?;
    Some(map.into_iter().collect())
}

/// The parameters that a stored text stands for: none where it is unreadable.
pub open spec fn stored_params(text: Seq<char>) -> Seq<(Seq<char>, Seq<char>)> {
    match json_params(text) {
        Some(params) => params,
        None => Seq::empty(),
    }
}

/// Computes [`stored_params`].
pub fn load_params(text: &str) -> (r: Vec<(String, String)>)
    ensures
        params_view(r@) == stored_params(text@),
{
    match read_params(text) {
        Some(params) => params,
        None => {
            let params: Vec<(String, String)> = Vec::new();
            assert(params_view(params@) =~= Seq::empty());
            params
        },
    }
}

} // verus!
