//! The signature of a checkout request.
//!
//! Zen signs a checkout request over its fields, written as `name=value`,
//! in alphabetical order of the names, joined by `&` and in lower case. The
//! pay wall secret is appended, and the SHA-256 digest of the whole, in
//! hexadecimal and followed by `;sha256`, is the signature.

use vstd::prelude::*;
use vstd::utf8::encode_utf8;

use crate::codec::{hex_encode, hex_lower, lowercased, sha256, sha256_digest, to_lowercase};
use crate::connectors::types::ConnectorError;
use crate::connectors::zen::types::{
    BrowserInformation, CheckoutRequest, WalletSessionData, ZenBrowserDetails, ZenItemObject,
    ZenPaymentChannels,
};
use crate::secret::Secret;
use crate::text::{
    decimal_digits, i64_to_string, join, joined, signed_decimal_digits, texts, u64_to_string,
};

verus! {

/// The largest number of bytes that can be digested.
pub const MAX_DIGEST_INPUT: u64 = 0x1FFF_FFFF_FFFF_FFFF;

/// The name of a payment channel as it is signed.
pub open spec fn channel_name(channel: ZenPaymentChannels) -> Seq<char> {
    match channel {
        ZenPaymentChannels::PclCard => "pcl_card"@,
        ZenPaymentChannels::PclGooglepay => "pcl_googlepay"@,
        ZenPaymentChannels::PclApplepay => "pcl_applepay"@,
        ZenPaymentChannels::PclBoacompraBoleto => "pcl_boacompra_boleto"@,
        ZenPaymentChannels::PclBoacompraEfecty => "pcl_boacompra_efecty"@,
        ZenPaymentChannels::PclBoacompraMultibanco => "pcl_boacompra_multibanco"@,
        ZenPaymentChannels::PclBoacompraPagoefectivo => "pcl_boacompra_pagoefectivo"@,
        ZenPaymentChannels::PclBoacompraPix => "pcl_boacompra_pix"@,
        ZenPaymentChannels::PclBoacompraPse => "pcl_boacompra_pse"@,
        ZenPaymentChannels::PclBoacompraRedcompra => "pcl_boacompra_redcompra"@,
        ZenPaymentChannels::PclBoacompraRedpagos => "pcl_boacompra_redpagos"@,
    }
}

/// The four signed fields of the item at a position.
pub open spec fn item_fields(index: nat, item: ZenItemObject) -> Seq<Seq<char>> {
    let prefix = "items["@ + decimal_digits(index) + "]."@;
    seq![
        prefix + "lineamounttotal="@ + item.line_amount_total@,
        prefix + "name="@ + item.name@,
        prefix + "price="@ + item.price@,
        prefix + "quantity="@ + decimal_digits(item.quantity as nat),
    ]
}

/// The signed fields of the first `count` items, in order.
pub open spec fn items_fields(items: Seq<ZenItemObject>, count: nat) -> Seq<Seq<char>>
    decreases count,
{
    if count == 0 {
        Seq::empty()
    } else {
        items_fields(items, (count - 1) as nat) + item_fields(
            (count - 1) as nat,
            items[count - 1],
        )
    }
}

/// The signed fields of a request, in the order in which they are signed.
pub open spec fn signature_fields(request: CheckoutRequest) -> Seq<Seq<char>> {
    seq![
        "amount="@ + request.amount@,
        "currency="@ + request.currency@,
        "customipnurl="@ + request.custom_ipn_url@,
    ] + items_fields(request.items@, request.items@.len()) + seq![
        "merchanttransactionid="@ + request.merchant_transaction_id@,
        "specifiedpaymentchannel="@ + channel_name(request.specified_payment_channel),
        "terminaluuid="@ + request.terminal_uuid@,
        "urlredirect="@ + request.url_redirect@,
    ]
}

/// The text that is signed: the fields joined by `&`, in lower case.
pub open spec fn signature_text(request: CheckoutRequest) -> Seq<char> {
    lowercased(joined(signature_fields(request), "&"@))
}

/// The signature of a signed text under a secret.
pub open spec fn signature_of(signed: Seq<char>, secret: Seq<char>) -> Seq<char> {
    hex_lower(sha256_digest(encode_utf8(signed + secret))) + ";sha256"@
}

fn channel_str(channel: ZenPaymentChannels) -> (name: &'static str)
    ensures
        name@ == channel_name(channel),
{
    match channel {
        ZenPaymentChannels::PclCard => "pcl_card",
        ZenPaymentChannels::PclGooglepay => "pcl_googlepay",
        ZenPaymentChannels::PclApplepay => "pcl_applepay",
        ZenPaymentChannels::PclBoacompraBoleto => "pcl_boacompra_boleto",
        ZenPaymentChannels::PclBoacompraEfecty => "pcl_boacompra_efecty",
        ZenPaymentChannels::PclBoacompraMultibanco => "pcl_boacompra_multibanco",
        ZenPaymentChannels::PclBoacompraPagoefectivo => "pcl_boacompra_pagoefectivo",
        ZenPaymentChannels::PclBoacompraPix => "pcl_boacompra_pix",
        ZenPaymentChannels::PclBoacompraPse => "pcl_boacompra_pse",
        ZenPaymentChannels::PclBoacompraRedcompra => "pcl_boacompra_redcompra",
        ZenPaymentChannels::PclBoacompraRedpagos => "pcl_boacompra_redpagos",
    }
}

fn field(name: &str, value: &str) -> (res: String)
    ensures
        res@ == name@ + value@,
{
    String::from_str(name).concat(value)
}

fn prefixed(prefix: &str, name: &str, value: &str) -> (res: String)
    ensures
        res@ == prefix@ + name@ + value@,
{
    String::from_str(prefix).concat(name).concat(value)
}

/// The text of a request that is signed.
pub fn get_signature_data(checkout_request: &CheckoutRequest) -> (res: Result<
    String,
    ConnectorError,
>)
    ensures
        res matches Ok(text) && text@ == signature_text(*checkout_request),
{
    let specified_payment_channel = channel_str(checkout_request.specified_payment_channel);
    let mut signature_data: Vec<String> = Vec::new();
    signature_data.push(field("amount=", checkout_request.amount.as_str()));
    signature_data.push(field("currency=", checkout_request.currency.as_str()));
    signature_data.push(field("customipnurl=", checkout_request.custom_ipn_url.as_str()));
    let ghost head = texts(signature_data@);
    assert(head =~= seq![
        "amount="@ + checkout_request.amount@,
        "currency="@ + checkout_request.currency@,
        "customipnurl="@ + checkout_request.custom_ipn_url@,
    ]);
    let mut index: usize = 0;
    while index < checkout_request.items.len()
        invariant
            index <= checkout_request.items.len(),
            texts(signature_data@) == head + items_fields(
                checkout_request.items@,
                index as nat,
            ),
        decreases checkout_request.items.len() - index,
    {
        let ghost before = texts(signature_data@);
        let number = u64_to_string(index as u64);
        let prefix = String::from_str("items[").concat(number.as_str()).concat("].");
        let item = &checkout_request.items[index];
        signature_data.push(
            prefixed(prefix.as_str(), "lineamounttotal=", item.line_amount_total.as_str()),
        );
        signature_data.push(prefixed(prefix.as_str(), "name=", item.name.as_str()));
        signature_data.push(prefixed(prefix.as_str(), "price=", item.price.as_str()));
        let quantity = u64_to_string(item.quantity as u64);
        signature_data.push(prefixed(prefix.as_str(), "quantity=", quantity.as_str()));
        proof {
            assert(texts(signature_data@) =~= before + item_fields(
                index as nat,
                checkout_request.items@[index as int],
            ));
        }
        index += 1;
    }
    let ghost middle = texts(signature_data@);
    signature_data.push(
        field("merchanttransactionid=", checkout_request.merchant_transaction_id.as_str()),
    );
    signature_data.push(field("specifiedpaymentchannel=", specified_payment_channel));
    signature_data.push(field("terminaluuid=", checkout_request.terminal_uuid.peek()));
    signature_data.push(field("urlredirect=", checkout_request.url_redirect.as_str()));
    proof {
        assert(texts(signature_data@) =~= middle + seq![
            "merchanttransactionid="@ + checkout_request.merchant_transaction_id@,
            "specifiedpaymentchannel="@ + channel_name(
                checkout_request.specified_payment_channel,
            ),
            "terminaluuid="@ + checkout_request.terminal_uuid@,
            "urlredirect="@ + checkout_request.url_redirect@,
        ]);
        assert(texts(signature_data@) =~= signature_fields(*checkout_request));
    }
    let signature = join(&signature_data, "&");
    Ok(to_lowercase(signature.as_str()))
}

/// The signature of a signed text under a secret, or an error where the two
/// together are longer than can be digested.
pub fn sign(signed: String, secret: &str) -> (res: Result<Secret, ConnectorError>)
    ensures
        encode_utf8(signed@ + secret@).len() <= MAX_DIGEST_INPUT ==> (res matches Ok(signature)
            && signature@ == signature_of(signed@, secret@)),
        encode_utf8(signed@ + secret@).len() > MAX_DIGEST_INPUT ==> (res matches Err(error)
            && error == ConnectorError::RequestEncodingFailed),
{
    let mut signature_data = signed;
    signature_data.append(secret);
    let bytes = signature_data.as_str().as_bytes();
    if bytes.len() as u64 > MAX_DIGEST_INPUT {
        return Err(ConnectorError::RequestEncodingFailed);
    }
    let payload_digest = sha256(bytes);
    let mut signature = hex_encode(payload_digest.as_slice());
    signature.append(";sha256");
    Ok(Secret::new(signature))
}

/// The signature of a checkout request. Without a pay wall secret there is
/// none.
pub fn get_checkout_signature(checkout_request: &CheckoutRequest, session: &WalletSessionData) -> (res:
    Result<Secret, ConnectorError>)
    ensures
        match session.pay_wall_secret {
            None => res matches Err(error) && error == ConnectorError::RequestEncodingFailed,
            Some(secret) => {
                let signed = signature_text(*checkout_request);
                &&& encode_utf8(signed + secret@).len() <= MAX_DIGEST_INPUT ==> (res matches Ok(
                    signature,
                ) && signature@ == signature_of(signed, secret@))
                &&& encode_utf8(signed + secret@).len() > MAX_DIGEST_INPUT ==> (res matches Err(
                    error,
                ) && error == ConnectorError::RequestEncodingFailed)
            },
        },
{
    let pay_wall_secret = match &session.pay_wall_secret {
        Some(secret) => secret.clone(),
        None => {
            return Err(ConnectorError::RequestEncodingFailed);
        },
    };
    let signature_data = match get_signature_data(checkout_request) {
        Ok(text) => text,
        Err(error) => {
            return Err(error);
        },
    };
    sign(signature_data, pay_wall_secret.peek())
}

/// The code of a window size: one of four known sizes, or the code for any
/// other.
pub open spec fn window_size_code(screen_height: u32, screen_width: u32) -> Seq<char> {
    if screen_height == 250 && screen_width == 400 {
        "01"@
    } else if screen_height == 390 && screen_width == 400 {
        "02"@
    } else if screen_height == 500 && screen_width == 600 {
        "03"@
    } else if screen_height == 600 && screen_width == 400 {
        "04"@
    } else {
        "05"@
    }
}

/// The first field that Zen needs of the browser and the platform does not
/// know; none where all are known.
pub open spec fn missing_browser_field(info: BrowserInformation) -> Option<&'static str> {
    if info.screen_height is None {
        Some("screen_height")
    } else if info.screen_width is None {
        Some("screen_width")
    } else if info.color_depth is None {
        Some("browser_info.color_depth")
    } else if info.java_enabled is None {
        Some("browser_info.java_enabled")
    } else if info.language is None {
        Some("browser_info.language")
    } else if info.time_zone is None {
        Some("browser_info.time_zone")
    } else if info.accept_header is None {
        Some("browser_info.accept_header")
    } else if info.user_agent is None {
        Some("browser_info.user_agent")
    } else {
        None
    }
}

/// Whether browser details are those of the given information: numbers in
/// decimal, texts as they are, and the window size as its code.
pub open spec fn is_details_of(details: ZenBrowserDetails, info: BrowserInformation) -> bool {
    &&& info.color_depth matches Some(color_depth) && details.color_depth@ == decimal_digits(
        color_depth as nat,
    )
    &&& info.java_enabled == Some(details.java_enabled)
    &&& info.language matches Some(language) && details.lang@ == language@
    &&& info.screen_height matches Some(height) && details.screen_height@ == decimal_digits(
        height as nat,
    )
    &&& info.screen_width matches Some(width) && details.screen_width@ == decimal_digits(
        width as nat,
    )
    &&& info.time_zone matches Some(zone) && details.timezone@ == signed_decimal_digits(
        zone as int,
    )
    &&& info.accept_header matches Some(accept) && details.accept_header@ == accept@
    &&& info.user_agent matches Some(agent) && details.user_agent@ == agent@
    &&& info.screen_height matches Some(height) && info.screen_width matches Some(width)
        && details.window_size@ == window_size_code(height, width)
}

/// What Zen is told of the payer's browser, or an error that names the first
/// field that is missing.
pub fn get_browser_details(browser_info: &BrowserInformation) -> (res: Result<
    ZenBrowserDetails,
    ConnectorError,
>)
    ensures
        match missing_browser_field(*browser_info) {
            Some(field_name) => res matches Err(error) && error
                == (ConnectorError::MissingRequiredField { field_name }),
            None => res matches Ok(details) && is_details_of(details, *browser_info),
        },
{
    let screen_height = match browser_info.screen_height {
        Some(height) => height,
        None => {
            return Err(ConnectorError::MissingRequiredField { field_name: "screen_height" });
        },
    };
    let screen_width = match browser_info.screen_width {
        Some(width) => width,
        None => {
            return Err(ConnectorError::MissingRequiredField { field_name: "screen_width" });
        },
    };
    let window_size = if screen_height == 250 && screen_width == 400 {
        String::from_str("01")
    } else if screen_height == 390 && screen_width == 400 {
        String::from_str("02")
    } else if screen_height == 500 && screen_width == 600 {
        String::from_str("03")
    } else if screen_height == 600 && screen_width == 400 {
        String::from_str("04")
    } else {
        String::from_str("05")
    };
    let color_depth = match browser_info.color_depth {
        Some(depth) => depth,
        None => {
            return Err(
                ConnectorError::MissingRequiredField { field_name: "browser_info.color_depth" },
            );
        },
    };
    let java_enabled = match browser_info.java_enabled {
        Some(enabled) => enabled,
        None => {
            return Err(
                ConnectorError::MissingRequiredField { field_name: "browser_info.java_enabled" },
            );
        },
    };
    let lang = match &browser_info.language {
        Some(language) => language.clone(),
        None => {
            return Err(
                ConnectorError::MissingRequiredField { field_name: "browser_info.language" },
            );
        },
    };
    let time_zone = match browser_info.time_zone {
        Some(zone) => zone,
        None => {
            return Err(
                ConnectorError::MissingRequiredField { field_name: "browser_info.time_zone" },
            );
        },
    };
    let accept_header = match &browser_info.accept_header {
        Some(accept) => accept.clone(),
        None => {
            return Err(
                ConnectorError::MissingRequiredField { field_name: "browser_info.accept_header" },
            );
        },
    };
    let user_agent = match &browser_info.user_agent {
        Some(agent) => agent.clone(),
        None => {
            return Err(
                ConnectorError::MissingRequiredField { field_name: "browser_info.user_agent" },
            );
        },
    };
    Ok(
        ZenBrowserDetails {
            color_depth: u64_to_string(color_depth as u64),
            java_enabled,
            lang,
            screen_height: u64_to_string(screen_height as u64),
            screen_width: u64_to_string(screen_width as u64),
            timezone: i64_to_string(time_zone as i64),
            accept_header,
            user_agent,
            window_size,
        },
    )
}

} // verus!
