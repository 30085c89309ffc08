//! Closed sets shared by the routing model.

use vstd::prelude::*;

use crate::text::text_equals;

verus! {

/// The payment processors that a routing algorithm may select.
#[derive(Debug, Clone, Copy, PartialEq, Eq, Hash, Structural)]
pub enum RoutableConnectors {
    Adyenplatform,
    Aci,
    Adyen,
    Airwallex,
    Authorizedotnet,
    Bankofamerica,
    Billwerk,
    Bitpay,
    Bambora,
    Bluesnap,
    Boku,
    Braintree,
    Cashtocode,
    Checkout,
    Coinbase,
    Cryptopay,
    Cybersource,
    Datatrans,
    Dlocal,
    Ebanx,
    Fiserv,
    Forte,
    Globalpay,
    Globepay,
    Gocardless,
    Helcim,
    Iatapay,
    Klarna,
    Mollie,
    Multisafepay,
    Nexinets,
    Nmi,
    Noon,
    Nuvei,
    Opennode,
    Payme,
    Payone,
    Paypal,
    Payu,
    Placetopay,
    Powertranz,
    Rapyd,
    Razorpay,
    Shift4,
    Square,
    Stax,
    Stripe,
    Trustpay,
    Tsys,
    Volt,
    Wise,
    Worldline,
    Worldpay,
    Zen,
    Zsl,
}

/// The kind of transaction that an algorithm routes.
#[derive(Debug, Clone, Copy, PartialEq, Eq, Hash, Structural)]
pub enum TransactionType {
    Payment,
    Payout,
    ThreeDsAuthentication,
}

/// The lower-case name under which a connector is written and displayed.
pub open spec fn connector_name(connector: RoutableConnectors) -> Seq<char> {
    match connector {
        RoutableConnectors::Adyenplatform => "adyenplatform"@,
        RoutableConnectors::Aci => "aci"@,
        RoutableConnectors::Adyen => "adyen"@,
        RoutableConnectors::Airwallex => "airwallex"@,
        RoutableConnectors::Authorizedotnet => "authorizedotnet"@,
        RoutableConnectors::Bankofamerica => "bankofamerica"@,
        RoutableConnectors::Billwerk => "billwerk"@,
        RoutableConnectors::Bitpay => "bitpay"@,
        RoutableConnectors::Bambora => "bambora"@,
        RoutableConnectors::Bluesnap => "bluesnap"@,
        RoutableConnectors::Boku => "boku"@,
        RoutableConnectors::Braintree => "braintree"@,
        RoutableConnectors::Cashtocode => "cashtocode"@,
        RoutableConnectors::Checkout => "checkout"@,
        RoutableConnectors::Coinbase => "coinbase"@,
        RoutableConnectors::Cryptopay => "cryptopay"@,
        RoutableConnectors::Cybersource => "cybersource"@,
        RoutableConnectors::Datatrans => "datatrans"@,
        RoutableConnectors::Dlocal => "dlocal"@,
        RoutableConnectors::Ebanx => "ebanx"@,
        RoutableConnectors::Fiserv => "fiserv"@,
        RoutableConnectors::Forte => "forte"@,
        RoutableConnectors::Globalpay => "globalpay"@,
        RoutableConnectors::Globepay => "globepay"@,
        RoutableConnectors::Gocardless => "gocardless"@,
        RoutableConnectors::Helcim => "helcim"@,
        RoutableConnectors::Iatapay => "iatapay"@,
        RoutableConnectors::Klarna => "klarna"@,
        RoutableConnectors::Mollie => "mollie"@,
        RoutableConnectors::Multisafepay => "multisafepay"@,
        RoutableConnectors::Nexinets => "nexinets"@,
        RoutableConnectors::Nmi => "nmi"@,
        RoutableConnectors::Noon => "noon"@,
        RoutableConnectors::Nuvei => "nuvei"@,
        RoutableConnectors::Opennode => "opennode"@,
        RoutableConnectors::Payme => "payme"@,
        RoutableConnectors::Payone => "payone"@,
        RoutableConnectors::Paypal => "paypal"@,
        RoutableConnectors::Payu => "payu"@,
        RoutableConnectors::Placetopay => "placetopay"@,
        RoutableConnectors::Powertranz => "powertranz"@,
        RoutableConnectors::Rapyd => "rapyd"@,
        RoutableConnectors::Razorpay => "razorpay"@,
        RoutableConnectors::Shift4 => "shift4"@,
        RoutableConnectors::Square => "square"@,
        RoutableConnectors::Stax => "stax"@,
        RoutableConnectors::Stripe => "stripe"@,
        RoutableConnectors::Trustpay => "trustpay"@,
        RoutableConnectors::Tsys => "tsys"@,
        RoutableConnectors::Volt => "volt"@,
        RoutableConnectors::Wise => "wise"@,
        RoutableConnectors::Worldline => "worldline"@,
        RoutableConnectors::Worldpay => "worldpay"@,
        RoutableConnectors::Zen => "zen"@,
        RoutableConnectors::Zsl => "zsl"@,
    }
}

/// The connector of a name; none where the text is no connector's name.
pub open spec fn connector_of_name(name: Seq<char>) -> Option<RoutableConnectors> {
    if name == "adyenplatform"@ {
        Some(RoutableConnectors::Adyenplatform)
    } else if name == "aci"@ {
        Some(RoutableConnectors::Aci)
    } else if name == "adyen"@ {
        Some(RoutableConnectors::Adyen)
    } else if name == "airwallex"@ {
        Some(RoutableConnectors::Airwallex)
    } else if name == "authorizedotnet"@ {
        Some(RoutableConnectors::Authorizedotnet)
    } else if name == "bankofamerica"@ {
        Some(RoutableConnectors::Bankofamerica)
    } else if name == "billwerk"@ {
        Some(RoutableConnectors::Billwerk)
    } else if name == "bitpay"@ {
        Some(RoutableConnectors::Bitpay)
    } else if name == "bambora"@ {
        Some(RoutableConnectors::Bambora)
    } else if name == "bluesnap"@ {
        Some(RoutableConnectors::Bluesnap)
    } else if name == "boku"@ {
        Some(RoutableConnectors::Boku)
    } else if name == "braintree"@ {
        Some(RoutableConnectors::Braintree)
    } else if name == "cashtocode"@ {
        Some(RoutableConnectors::Cashtocode)
    } else if name == "checkout"@ {
        Some(RoutableConnectors::Checkout)
    } else if name == "coinbase"@ {
        Some(RoutableConnectors::Coinbase)
    } else if name == "cryptopay"@ {
        Some(RoutableConnectors::Cryptopay)
    } else if name == "cybersource"@ {
        Some(RoutableConnectors::Cybersource)
    } else if name == "datatrans"@ {
        Some(RoutableConnectors::Datatrans)
    } else if name == "dlocal"@ {
        Some(RoutableConnectors::Dlocal)
    } else if name == "ebanx"@ {
        Some(RoutableConnectors::Ebanx)
    } else if name == "fiserv"@ {
        Some(RoutableConnectors::Fiserv)
    } else if name == "forte"@ {
        Some(RoutableConnectors::Forte)
    } else if name == "globalpay"@ {
        Some(RoutableConnectors::Globalpay)
    } else if name == "globepay"@ {
        Some(RoutableConnectors::Globepay)
    } else if name == "gocardless"@ {
        Some(RoutableConnectors::Gocardless)
    } else if name == "helcim"@ {
        Some(RoutableConnectors::Helcim)
    } else if name == "iatapay"@ {
        Some(RoutableConnectors::Iatapay)
    } else if name == "klarna"@ {
        Some(RoutableConnectors::Klarna)
    } else if name == "mollie"@ {
        Some(RoutableConnectors::Mollie)
    } else if name == "multisafepay"@ {
        Some(RoutableConnectors::Multisafepay)
    } else if name == "nexinets"@ {
        Some(RoutableConnectors::Nexinets)
    } else if name == "nmi"@ {
        Some(RoutableConnectors::Nmi)
    } else if name == "noon"@ {
        Some(RoutableConnectors::Noon)
    } else if name == "nuvei"@ {
        Some(RoutableConnectors::Nuvei)
    } else if name == "opennode"@ {
        Some(RoutableConnectors::Opennode)
    } else if name == "payme"@ {
        Some(RoutableConnectors::Payme)
    } else if name == "payone"@ {
        Some(RoutableConnectors::Payone)
    } else if name == "paypal"@ {
        Some(RoutableConnectors::Paypal)
    } else if name == "payu"@ {
        Some(RoutableConnectors::Payu)
    } else if name == "placetopay"@ {
        Some(RoutableConnectors::Placetopay)
    } else if name == "powertranz"@ {
        Some(RoutableConnectors::Powertranz)
    } else if name == "rapyd"@ {
        Some(RoutableConnectors::Rapyd)
    } else if name == "razorpay"@ {
        Some(RoutableConnectors::Razorpay)
    } else if name == "shift4"@ {
        Some(RoutableConnectors::Shift4)
    } else if name == "square"@ {
        Some(RoutableConnectors::Square)
    } else if name == "stax"@ {
        Some(RoutableConnectors::Stax)
    } else if name == "stripe"@ {
        Some(RoutableConnectors::Stripe)
    } else if name == "trustpay"@ {
        Some(RoutableConnectors::Trustpay)
    } else if name == "tsys"@ {
        Some(RoutableConnectors::Tsys)
    } else if name == "volt"@ {
        Some(RoutableConnectors::Volt)
    } else if name == "wise"@ {
        Some(RoutableConnectors::Wise)
    } else if name == "worldline"@ {
        Some(RoutableConnectors::Worldline)
    } else if name == "worldpay"@ {
        Some(RoutableConnectors::Worldpay)
    } else if name == "zen"@ {
        Some(RoutableConnectors::Zen)
    } else if name == "zsl"@ {
        Some(RoutableConnectors::Zsl)
    } else {
        None
    }
}

impl RoutableConnectors {
    /// The connector's name as a string slice.
    pub fn as_str(&self) -> (name: &'static str)
        ensures
            name@ == connector_name(*self),
    {
        match self {
            RoutableConnectors::Adyenplatform => "adyenplatform",
            RoutableConnectors::Aci => "aci",
            RoutableConnectors::Adyen => "adyen",
            RoutableConnectors::Airwallex => "airwallex",
            RoutableConnectors::Authorizedotnet => "authorizedotnet",
            RoutableConnectors::Bankofamerica => "bankofamerica",
            RoutableConnectors::Billwerk => "billwerk",
            RoutableConnectors::Bitpay => "bitpay",
            RoutableConnectors::Bambora => "bambora",
            RoutableConnectors::Bluesnap => "bluesnap",
            RoutableConnectors::Boku => "boku",
            RoutableConnectors::Braintree => "braintree",
            RoutableConnectors::Cashtocode => "cashtocode",
            RoutableConnectors::Checkout => "checkout",
            RoutableConnectors::Coinbase => "coinbase",
            RoutableConnectors::Cryptopay => "cryptopay",
            RoutableConnectors::Cybersource => "cybersource",
            RoutableConnectors::Datatrans => "datatrans",
            RoutableConnectors::Dlocal => "dlocal",
            RoutableConnectors::Ebanx => "ebanx",
            RoutableConnectors::Fiserv => "fiserv",
            RoutableConnectors::Forte => "forte",
            RoutableConnectors::Globalpay => "globalpay",
            RoutableConnectors::Globepay => "globepay",
            RoutableConnectors::Gocardless => "gocardless",
            RoutableConnectors::Helcim => "helcim",
            RoutableConnectors::Iatapay => "iatapay",
            RoutableConnectors::Klarna => "klarna",
            RoutableConnectors::Mollie => "mollie",
            RoutableConnectors::Multisafepay => "multisafepay",
            RoutableConnectors::Nexinets => "nexinets",
            RoutableConnectors::Nmi => "nmi",
            RoutableConnectors::Noon => "noon",
            RoutableConnectors::Nuvei => "nuvei",
            RoutableConnectors::Opennode => "opennode",
            RoutableConnectors::Payme => "payme",
            RoutableConnectors::Payone => "payone",
            RoutableConnectors::Paypal => "paypal",
            RoutableConnectors::Payu => "payu",
            RoutableConnectors::Placetopay => "placetopay",
            RoutableConnectors::Powertranz => "powertranz",
            RoutableConnectors::Rapyd => "rapyd",
            RoutableConnectors::Razorpay => "razorpay",
            RoutableConnectors::Shift4 => "shift4",
            RoutableConnectors::Square => "square",
            RoutableConnectors::Stax => "stax",
            RoutableConnectors::Stripe => "stripe",
            RoutableConnectors::Trustpay => "trustpay",
            RoutableConnectors::Tsys => "tsys",
            RoutableConnectors::Volt => "volt",
            RoutableConnectors::Wise => "wise",
            RoutableConnectors::Worldline => "worldline",
            RoutableConnectors::Worldpay => "worldpay",
            RoutableConnectors::Zen => "zen",
            RoutableConnectors::Zsl => "zsl",
        }
    }

    /// The connector's name as an owned string.
    pub fn to_string(&self) -> (name: String)
        ensures
            name@ == connector_name(*self),
    {
        String::from_str(self.as_str())
    }

    /// The connector that a name stands for, if it stands for one.
    pub fn from_name(name: &str) -> (res: Option<Self>)
        ensures
            res == connector_of_name(name@),
    {
        if text_equals(name, "adyenplatform") {
            Some(RoutableConnectors::Adyenplatform)
        } else if text_equals(name, "aci") {
            Some(RoutableConnectors::Aci)
        } else if text_equals(name, "adyen") {
            Some(RoutableConnectors::Adyen)
        } else if text_equals(name, "airwallex") {
            Some(RoutableConnectors::Airwallex)
        } else if text_equals(name, "authorizedotnet") {
            Some(RoutableConnectors::Authorizedotnet)
        } else if text_equals(name, "bankofamerica") {
            Some(RoutableConnectors::Bankofamerica)
        } else if text_equals(name, "billwerk") {
            Some(RoutableConnectors::Billwerk)
        } else if text_equals(name, "bitpay") {
            Some(RoutableConnectors::Bitpay)
        } else if text_equals(name, "bambora") {
            Some(RoutableConnectors::Bambora)
        } else if text_equals(name, "bluesnap") {
            Some(RoutableConnectors::Bluesnap)
        } else if text_equals(name, "boku") {
            Some(RoutableConnectors::Boku)
        } else if text_equals(name, "braintree") {
            Some(RoutableConnectors::Braintree)
        } else if text_equals(name, "cashtocode") {
            Some(RoutableConnectors::Cashtocode)
        } else if text_equals(name, "checkout") {
            Some(RoutableConnectors::Checkout)
        } else if text_equals(name, "coinbase") {
            Some(RoutableConnectors::Coinbase)
        } else if text_equals(name, "cryptopay") {
            Some(RoutableConnectors::Cryptopay)
        } else if text_equals(name, "cybersource") {
            Some(RoutableConnectors::Cybersource)
        } else if text_equals(name, "datatrans") {
            Some(RoutableConnectors::Datatrans)
        } else if text_equals(name, "dlocal") {
            Some(RoutableConnectors::Dlocal)
        } else if text_equals(name, "ebanx") {
            Some(RoutableConnectors::Ebanx)
        } else if text_equals(name, "fiserv") {
            Some(RoutableConnectors::Fiserv)
        } else if text_equals(name, "forte") {
            Some(RoutableConnectors::Forte)
        } else if text_equals(name, "globalpay") {
            Some(RoutableConnectors::Globalpay)
        } else if text_equals(name, "globepay") {
            Some(RoutableConnectors::Globepay)
        } else if text_equals(name, "gocardless") {
            Some(RoutableConnectors::Gocardless)
        } else if text_equals(name, "helcim") {
            Some(RoutableConnectors::Helcim)
        } else if text_equals(name, "iatapay") {
            Some(RoutableConnectors::Iatapay)
        } else if text_equals(name, "klarna") {
            Some(RoutableConnectors::Klarna)
        } else if text_equals(name, "mollie") {
            Some(RoutableConnectors::Mollie)
        } else if text_equals(name, "multisafepay") {
            Some(RoutableConnectors::Multisafepay)
        } else if text_equals(name, "nexinets") {
            Some(RoutableConnectors::Nexinets)
        } else if text_equals(name, "nmi") {
            Some(RoutableConnectors::Nmi)
        } else if text_equals(name, "noon") {
            Some(RoutableConnectors::Noon)
        } else if text_equals(name, "nuvei") {
            Some(RoutableConnectors::Nuvei)
        } else if text_equals(name, "opennode") {
            Some(RoutableConnectors::Opennode)
        } else if text_equals(name, "payme") {
            Some(RoutableConnectors::Payme)
        } else if text_equals(name, "payone") {
            Some(RoutableConnectors::Payone)
        } else if text_equals(name, "paypal") {
            Some(RoutableConnectors::Paypal)
        } else if text_equals(name, "payu") {
            Some(RoutableConnectors::Payu)
        } else if text_equals(name, "placetopay") {
            Some(RoutableConnectors::Placetopay)
        } else if text_equals(name, "powertranz") {
            Some(RoutableConnectors::Powertranz)
        } else if text_equals(name, "rapyd") {
            Some(RoutableConnectors::Rapyd)
        } else if text_equals(name, "razorpay") {
            Some(RoutableConnectors::Razorpay)
        } else if text_equals(name, "shift4") {
            Some(RoutableConnectors::Shift4)
        } else if text_equals(name, "square") {
            Some(RoutableConnectors::Square)
        } else if text_equals(name, "stax") {
            Some(RoutableConnectors::Stax)
        } else if text_equals(name, "stripe") {
            Some(RoutableConnectors::Stripe)
        } else if text_equals(name, "trustpay") {
            Some(RoutableConnectors::Trustpay)
        } else if text_equals(name, "tsys") {
            Some(RoutableConnectors::Tsys)
        } else if text_equals(name, "volt") {
            Some(RoutableConnectors::Volt)
        } else if text_equals(name, "wise") {
            Some(RoutableConnectors::Wise)
        } else if text_equals(name, "worldline") {
            Some(RoutableConnectors::Worldline)
        } else if text_equals(name, "worldpay") {
            Some(RoutableConnectors::Worldpay)
        } else if text_equals(name, "zen") {
            Some(RoutableConnectors::Zen)
        } else if text_equals(name, "zsl") {
            Some(RoutableConnectors::Zsl)
        } else {
            None
        }
    }
}

/// No connector name holds a colon, so a colon can separate a name from what
/// follows it.
pub proof fn lemma_connector_name_has_no_colon(connector: RoutableConnectors)
    ensures
        forall|i: int|
            0 <= i < connector_name(connector).len() ==> connector_name(connector)[i] != ':',
{
    reveal_strlit("adyenplatform");
    reveal_strlit("aci");
    reveal_strlit("adyen");
    reveal_strlit("airwallex");
    reveal_strlit("authorizedotnet");
    reveal_strlit("bankofamerica");
    reveal_strlit("billwerk");
    reveal_strlit("bitpay");
    reveal_strlit("bambora");
    reveal_strlit("bluesnap");
    reveal_strlit("boku");
    reveal_strlit("braintree");
    reveal_strlit("cashtocode");
    reveal_strlit("checkout");
    reveal_strlit("coinbase");
    reveal_strlit("cryptopay");
    reveal_strlit("cybersource");
    reveal_strlit("datatrans");
    reveal_strlit("dlocal");
    reveal_strlit("ebanx");
    reveal_strlit("fiserv");
    reveal_strlit("forte");
    reveal_strlit("globalpay");
    reveal_strlit("globepay");
    reveal_strlit("gocardless");
    reveal_strlit("helcim");
    reveal_strlit("iatapay");
    reveal_strlit("klarna");
    reveal_strlit("mollie");
    reveal_strlit("multisafepay");
    reveal_strlit("nexinets");
    reveal_strlit("nmi");
    reveal_strlit("noon");
    reveal_strlit("nuvei");
    reveal_strlit("opennode");
    reveal_strlit("payme");
    reveal_strlit("payone");
    reveal_strlit("paypal");
    reveal_strlit("payu");
    reveal_strlit("placetopay");
    reveal_strlit("powertranz");
    reveal_strlit("rapyd");
    reveal_strlit("razorpay");
    reveal_strlit("shift4");
    reveal_strlit("square");
    reveal_strlit("stax");
    reveal_strlit("stripe");
    reveal_strlit("trustpay");
    reveal_strlit("tsys");
    reveal_strlit("volt");
    reveal_strlit("wise");
    reveal_strlit("worldline");
    reveal_strlit("worldpay");
    reveal_strlit("zen");
    reveal_strlit("zsl");
}

/// Two connectors with the same name are the same connector.
pub proof fn lemma_connector_name_injective(a: RoutableConnectors, b: RoutableConnectors)
    requires
        connector_name(a) == connector_name(b),
    ensures
        a == b,
{
    reveal_strlit("adyenplatform");
    reveal_strlit("aci");
    reveal_strlit("adyen");
    reveal_strlit("airwallex");
    reveal_strlit("authorizedotnet");
    reveal_strlit("bankofamerica");
    reveal_strlit("billwerk");
    reveal_strlit("bitpay");
    reveal_strlit("bambora");
    reveal_strlit("bluesnap");
    reveal_strlit("boku");
    reveal_strlit("braintree");
    reveal_strlit("cashtocode");
    reveal_strlit("checkout");
    reveal_strlit("coinbase");
    reveal_strlit("cryptopay");
    reveal_strlit("cybersource");
    reveal_strlit("datatrans");
    reveal_strlit("dlocal");
    reveal_strlit("ebanx");
    reveal_strlit("fiserv");
    reveal_strlit("forte");
    reveal_strlit("globalpay");
    reveal_strlit("globepay");
    reveal_strlit("gocardless");
    reveal_strlit("helcim");
    reveal_strlit("iatapay");
    reveal_strlit("klarna");
    reveal_strlit("mollie");
    reveal_strlit("multisafepay");
    reveal_strlit("nexinets");
    reveal_strlit("nmi");
    reveal_strlit("noon");
    reveal_strlit("nuvei");
    reveal_strlit("opennode");
    reveal_strlit("payme");
    reveal_strlit("payone");
    reveal_strlit("paypal");
    reveal_strlit("payu");
    reveal_strlit("placetopay");
    reveal_strlit("powertranz");
    reveal_strlit("rapyd");
    reveal_strlit("razorpay");
    reveal_strlit("shift4");
    reveal_strlit("square");
    reveal_strlit("stax");
    reveal_strlit("stripe");
    reveal_strlit("trustpay");
    reveal_strlit("tsys");
    reveal_strlit("volt");
    reveal_strlit("wise");
    reveal_strlit("worldline");
    reveal_strlit("worldpay");
    reveal_strlit("zen");
    reveal_strlit("zsl");
    let x = connector_name(a);
    let y = connector_name(b);
    assert(x.len() == y.len());
    assert(x[0] == y[0] && x[1] == y[1] && x[2] == y[2] && x[3] == y[3]);
    assert(x[4] == y[4] && x[5] == y[5] && x[6] == y[6] && x[7] == y[7]);
    assert(x[8] == y[8] && x[9] == y[9] && x[10] == y[10] && x[11] == y[11]);
}

/// A connector is read back from its own name.
pub proof fn lemma_connector_name_round_trip(connector: RoutableConnectors)
    ensures
        connector_of_name(connector_name(connector)) == Some(connector),
{
    let name = connector_name(connector);
    match connector_of_name(name) {
        Some(found) => {
            assert(connector_name(found) == name);
            lemma_connector_name_injective(found, connector);
        },
        None => {
            assert(false);
        },
    }
}

} // verus!
