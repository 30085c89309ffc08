//! The fields of a redirect form.
//!
//! A form has one value for each field name. The fields are kept as a list
//! of pairs in which no name occurs twice; what the list means is the map
//! from names to values.

use vstd::prelude::*;

use crate::codec::{
    pair_texts, url_query_pairs, url_query_pairs_of, url_without_query, url_without_query_of,
};
use crate::connectors::types::{Method, RedirectForm};

verus! {

/// The map that a list of pairs builds up when its pairs are inserted in
/// order: where a name occurs more than once, the last value stands.
pub open spec fn fields_map(pairs: Seq<(Seq<char>, Seq<char>)>) -> Map<Seq<char>, Seq<char>>
    decreases pairs.len(),
{
    if pairs.len() == 0 {
        Map::empty()
    } else {
        fields_map(pairs.drop_last()).insert(pairs.last().0, pairs.last().1)
    }
}

/// Whether no name occurs twice in a list of pairs.
pub open spec fn distinct_names(pairs: Seq<(Seq<char>, Seq<char>)>) -> bool {
    forall|i: int, j: int|
        0 <= i < j < pairs.len() ==> (#[trigger] pairs[i]).0 != (#[trigger] pairs[j]).0
}

/// The map of a list of owned pairs.
pub open spec fn form_map(fields: Seq<(String, String)>) -> Map<Seq<char>, Seq<char>> {
    fields_map(pair_texts(fields))
}

/// Replacing the value of a name that occurs once gives the map with that
/// name set to the new value.
pub proof fn lemma_replace_value(
    pairs: Seq<(Seq<char>, Seq<char>)>,
    index: int,
    value: Seq<char>,
)
    requires
        0 <= index < pairs.len(),
        distinct_names(pairs),
    ensures
        fields_map(pairs.update(index, (pairs[index].0, value))) == fields_map(pairs).insert(
            pairs[index].0,
            value,
        ),
        distinct_names(pairs.update(index, (pairs[index].0, value))),
    decreases pairs.len(),
{
    let name = pairs[index].0;
    let updated = pairs.update(index, (name, value));
    if index == pairs.len() - 1 {
        assert(updated.drop_last() =~= pairs.drop_last());
        assert(fields_map(updated) =~= fields_map(pairs).insert(name, value));
    } else {
        let front = pairs.drop_last();
        assert(distinct_names(front)) by {
            assert forall|i: int, j: int| 0 <= i < j < front.len() implies (#[trigger] front[i]).0
                != (#[trigger] front[j]).0 by {
                assert(pairs[i].0 != pairs[j].0);
            }
        }
        lemma_replace_value(front, index, value);
        assert(updated.drop_last() =~= front.update(index, (name, value)));
        assert(updated.last() == pairs.last());
        assert(pairs[index].0 != pairs[pairs.len() - 1].0);
        assert(fields_map(updated) =~= fields_map(pairs).insert(name, value));
    }
}

/// Appending a pair gives the map with the pair's name set to its value.
pub proof fn lemma_append_value(pairs: Seq<(Seq<char>, Seq<char>)>, pair: (Seq<char>, Seq<char>))
    ensures
        fields_map(pairs.push(pair)) == fields_map(pairs).insert(pair.0, pair.1),
{
    assert(pairs.push(pair).drop_last() =~= pairs);
}

/// Sets a field of a form: the value of a name that the form holds is
/// replaced, and a name that it does not hold is added.
pub fn set_field(fields: &mut Vec<(String, String)>, name: String, value: String)
    requires
        distinct_names(pair_texts(old(fields)@)),
    ensures
        distinct_names(pair_texts(final(fields)@)),
        form_map(final(fields)@) == form_map(old(fields)@).insert(name@, value@),
{
    let ghost before = pair_texts(fields@);
    let mut i: usize = 0;
    while i < fields.len()
        invariant
            i <= fields.len(),
            pair_texts(fields@) == before,
            before == pair_texts(old(fields)@),
            distinct_names(before),
            forall|k: int| 0 <= k < i ==> (#[trigger] before[k]).0 != name@,
        decreases fields.len() - i,
    {
        assert(before[i as int].0 == fields@[i as int].0@);
        if fields[i].0 == name {
            proof {
                lemma_replace_value(before, i as int, value@);
            }
            fields.set(i, (name, value));
            assert(pair_texts(fields@) =~= before.update(i as int, (before[i as int].0, value@)));
            return ;
        }
        i += 1;
    }
    proof {
        lemma_append_value(before, (name@, value@));
    }
    fields.push((name, value));
    assert(pair_texts(fields@) =~= before.push((name@, value@)));
    assert(distinct_names(pair_texts(fields@))) by {
        let after = pair_texts(fields@);
        assert forall|a: int, b: int| 0 <= a < b < after.len() implies (#[trigger] after[a]).0 != (
        #[trigger] after[b]).0 by {
            if b < before.len() {
                assert(before[a].0 != before[b].0);
            } else {
                assert(before[a].0 != name@);
            }
        }
    }
}

/// Builds a form's fields from pairs in order: where a name occurs more than
/// once, its last value stands.
pub fn fields_from_pairs(pairs: &Vec<(String, String)>) -> (fields: Vec<(String, String)>)
    ensures
        distinct_names(pair_texts(fields@)),
        form_map(fields@) == form_map(pairs@),
{
    let mut fields: Vec<(String, String)> = Vec::new();
    let mut i: usize = 0;
    assert(pair_texts(pairs@).subrange(0, 0) =~= Seq::empty());
    while i < pairs.len()
        invariant
            i <= pairs.len(),
            distinct_names(pair_texts(fields@)),
            form_map(fields@) == fields_map(pair_texts(pairs@).subrange(0, i as int)),
        decreases pairs.len() - i,
    {
        let ghost done = pair_texts(pairs@).subrange(0, i as int);
        let ghost next = pair_texts(pairs@).subrange(0, i as int + 1);
        set_field(&mut fields, pairs[i].0.clone(), pairs[i].1.clone());
        proof {
            assert(next =~= done.push((pairs@[i as int].0@, pairs@[i as int].1@)));
            lemma_append_value(done, (pairs@[i as int].0@, pairs@[i as int].1@));
        }
        i += 1;
    }
    assert(pair_texts(pairs@).subrange(0, pairs@.len() as int) =~= pair_texts(pairs@));
    fields
}

/// Whether a form is the one that a redirect address stands for: it is sent
/// to the endpoint by the method, and its fields are the given pairs.
pub open spec fn is_form_of_parts(
    form: RedirectForm,
    pairs: Seq<(Seq<char>, Seq<char>)>,
    endpoint: Seq<char>,
    method: Method,
) -> bool {
    &&& form.endpoint@ == endpoint
    &&& form.method == method
    &&& distinct_names(pair_texts(form.form_fields@))
    &&& form_map(form.form_fields@) == fields_map(pairs)
}

/// The form for the parts of a redirect address: its query pairs become the
/// fields, and the address without its query becomes the endpoint.
pub fn form_of_parts(pairs: Vec<(String, String)>, endpoint: String, method: Method) -> (form:
    RedirectForm)
    ensures
        is_form_of_parts(form, pair_texts(pairs@), endpoint@, method),
{
    let form_fields = fields_from_pairs(&pairs);
    RedirectForm { endpoint, method, form_fields }
}

/// The form that a redirect address stands for; none where the address is
/// not a URL.
pub fn redirect_form_of_url(url: &str, method: Method) -> (res: Option<RedirectForm>)
    ensures
        match (url_query_pairs_of(url@), url_without_query_of(url@)) {
            (Some(pairs), Some(endpoint)) => res matches Some(form) && is_form_of_parts(
                form,
                pairs,
                endpoint,
                method,
            ),
            _ => res is None,
        },
{
    let pairs = url_query_pairs(url);
    let endpoint = url_without_query(url);
    match (pairs, endpoint) {
        (Some(pairs), Some(endpoint)) => Some(form_of_parts(pairs, endpoint, method)),
        _ => None,
    }
}

} // verus!
