//! Where PayPal sends the payer, and the form that takes the payer there.

use vstd::prelude::*;

use crate::codec::{
    pair_texts, url_query_pairs, url_query_pairs_of, url_without_query, url_without_query_of,
};
use crate::connectors::form::{distinct_names, fields_from_pairs, fields_map, form_map, set_field};
use crate::connectors::paypal::types::PaypalLinks;
use crate::connectors::types::{clone_optional_string, ConnectorError, Method, RedirectForm};
use crate::text::text_equals;

verus! {

/// The relation of the link that the payer must follow.
pub const PAYER_ACTION: &'static str = "payer-action";

/// The form field in which PayPal expects the address to return to.
pub const REDIRECT_URI: &'static str = "redirect_uri";

/// The target of the last link for the payer's action; none where there is
/// no such link, or where the last such link has no target.
pub open spec fn payer_action_href(links: Seq<PaypalLinks>) -> Option<String>
    decreases links.len(),
{
    if links.len() == 0 {
        None
    } else if links.last().rel@ == PAYER_ACTION@ {
        links.last().href
    } else {
        payer_action_href(links.drop_last())
    }
}

/// The target of the link for the payer's action.
pub fn get_redirect_url(link_vec: Vec<PaypalLinks>) -> (res: Result<
    Option<String>,
    ConnectorError,
>)
    ensures
        res == Ok::<Option<String>, ConnectorError>(payer_action_href(link_vec@)),
{
    let mut link: Option<String> = None;
    let mut i: usize = 0;
    assert(link_vec@.subrange(0, 0) =~= Seq::empty());
    while i < link_vec.len()
        invariant
            i <= link_vec.len(),
            link == payer_action_href(link_vec@.subrange(0, i as int)),
        decreases link_vec.len() - i,
    {
        let ghost next = link_vec@.subrange(0, i as int + 1);
        assert(next.drop_last() =~= link_vec@.subrange(0, i as int));
        assert(next.last() == link_vec@[i as int]);
        if text_equals(link_vec[i].rel.as_str(), PAYER_ACTION) {
            link = clone_optional_string(&link_vec[i].href);
        }
        i += 1;
    }
    assert(link_vec@.subrange(0, link_vec@.len() as int) =~= link_vec@);
    Ok(link)
}

/// Whether a form is the one that takes the payer to PayPal's 3DS page: it
/// is sent with GET to the endpoint, and its fields are the given pairs with
/// the address to return to set under its name.
pub open spec fn is_threeds_form(
    form: RedirectForm,
    pairs: Seq<(Seq<char>, Seq<char>)>,
    endpoint: Seq<char>,
    complete_auth_url: Seq<char>,
) -> bool {
    &&& form.endpoint@ == endpoint
    &&& form.method == Method::Get
    &&& distinct_names(pair_texts(form.form_fields@))
    &&& form_map(form.form_fields@) == fields_map(pairs).insert(REDIRECT_URI@, complete_auth_url)
}

/// The form for the parts of a redirect address: its query pairs and the
/// address without its query. PayPal wants the address to return to as a
/// field beside them, and no query on the endpoint.
pub fn threeds_form_of_parts(
    pairs: Vec<(String, String)>,
    endpoint: String,
    complete_auth_url: String,
) -> (form: RedirectForm)
    ensures
        is_threeds_form(form, pair_texts(pairs@), endpoint@, complete_auth_url@),
{
    let mut form_fields = fields_from_pairs(&pairs);
    set_field(&mut form_fields, String::from_str(REDIRECT_URI), complete_auth_url);
    RedirectForm { endpoint, method: Method::Get, form_fields }
}

/// The form that takes the payer to PayPal's 3DS page. Without an address to
/// redirect to, or with one that is not a URL, the response could not be
/// read; without an address to return to, a required field is missing.
pub fn paypal_threeds_link(urls: (Option<String>, Option<String>)) -> (res: Result<
    RedirectForm,
    ConnectorError,
>)
    ensures
        match urls {
            (None, _) => res == Err::<RedirectForm, ConnectorError>(
                ConnectorError::ResponseDeserializationFailed,
            ),
            (Some(_), None) => res == Err::<RedirectForm, ConnectorError>(
                ConnectorError::MissingRequiredField { field_name: "complete_authorize_url" },
            ),
            (Some(url), Some(back)) => match (
                url_query_pairs_of(url@),
                url_without_query_of(url@),
            ) {
                (Some(pairs), Some(endpoint)) => res matches Ok(form) && is_threeds_form(
                    form,
                    pairs,
                    endpoint,
                    back@,
                ),
                _ => res == Err::<RedirectForm, ConnectorError>(
                    ConnectorError::ResponseDeserializationFailed,
                ),
            },
        },
{
    let (redirect_url, complete_auth_url) = urls;
    let redirect_url = match redirect_url {
        Some(url) => url,
        None => {
            return Err(ConnectorError::ResponseDeserializationFailed);
        },
    };
    let complete_auth_url = match complete_auth_url {
        Some(url) => url,
        None => {
            return Err(
                ConnectorError::MissingRequiredField { field_name: "complete_authorize_url" },
            );
        },
    };
    let pairs = url_query_pairs(redirect_url.as_str());
    let endpoint = url_without_query(redirect_url.as_str());
    match (pairs, endpoint) {
        (Some(pairs), Some(endpoint)) => Ok(
            threeds_form_of_parts(pairs, endpoint, complete_auth_url),
        ),
        _ => Err(ConnectorError::ResponseDeserializationFailed),
    }
}

} // verus!
