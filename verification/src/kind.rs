//! The closed set of message kinds exchanged with the remote authority.

use vstd::prelude::*;
use vstd::string::*;
use vstd::utf8::{encode_utf8, is_ascii_chars_encode_utf8};
use crate::scan::range_equals;

verus! {

/// One entry of the request catalogue. A kind travels on the wire as its
/// name, a case-sensitive plain-text token.
#[derive(Clone, Copy, Debug, PartialEq, Eq, Structural)]
pub enum RequestKind {
    Tables,
    TablesInsert,
    TablesDelete,
    Offers,
    OffersInsert,
    OffersTables,
    Orders,
    OrdersFinish,
}

impl RequestKind {
    /// The token that names this kind on the wire, as characters.
    pub open spec fn name_spec(self) -> Seq<char> {
        match self {
            RequestKind::Tables => "Tables"@,
            RequestKind::TablesInsert => "TablesInsert"@,
            RequestKind::TablesDelete => "TablesDelete"@,
            RequestKind::Offers => "Offers"@,
            RequestKind::OffersInsert => "OffersInsert"@,
            RequestKind::OffersTables => "OffersTables"@,
            RequestKind::Orders => "Orders"@,
            RequestKind::OrdersFinish => "OrdersFinish"@,
        }
    }

    /// The token that names this kind on the wire, as bytes.
    pub open spec fn token(self) -> Seq<u8> {
        encode_utf8(self.name_spec())
    }

    /// The token that names this kind on the wire.
    pub fn name(&self) -> (token: &'static str)
        ensures
            token@ == self.name_spec(),
    {
        match self {
            RequestKind::Tables => "Tables",
            RequestKind::TablesInsert => "TablesInsert",
            RequestKind::TablesDelete => "TablesDelete",
            RequestKind::Offers => "Offers",
            RequestKind::OffersInsert => "OffersInsert",
            RequestKind::OffersTables => "OffersTables",
            RequestKind::Orders => "Orders",
            RequestKind::OrdersFinish => "OrdersFinish",
        }
    }
}

/// The kind that `token` names, if it names one. Tokens are compared
/// exactly: case matters, and nothing may stand around the name.
pub open spec fn kind_of_token(token: Seq<u8>) -> Option<RequestKind> {
    if token == RequestKind::Tables.token() {
        Some(RequestKind::Tables)
    } else if token == RequestKind::TablesInsert.token() {
        Some(RequestKind::TablesInsert)
    } else if token == RequestKind::TablesDelete.token() {
        Some(RequestKind::TablesDelete)
    } else if token == RequestKind::Offers.token() {
        Some(RequestKind::Offers)
    } else if token == RequestKind::OffersInsert.token() {
        Some(RequestKind::OffersInsert)
    } else if token == RequestKind::OffersTables.token() {
        Some(RequestKind::OffersTables)
    } else if token == RequestKind::Orders.token() {
        Some(RequestKind::Orders)
    } else if token == RequestKind::OrdersFinish.token() {
        Some(RequestKind::OrdersFinish)
    } else {
        None
    }
}

/// The bytes of each token: the ASCII letters of the kind's name.
pub proof fn lemma_token_bytes(kind: RequestKind)
    ensures
        kind.token() == match kind {
            RequestKind::Tables => seq![84u8, 97, 98, 108, 101, 115],
            RequestKind::TablesInsert => seq![
                84u8,
                97,
                98,
                108,
                101,
                115,
                73,
                110,
                115,
                101,
                114,
                116,
            ],
            RequestKind::TablesDelete => seq![
                84u8,
                97,
                98,
                108,
                101,
                115,
                68,
                101,
                108,
                101,
                116,
                101,
            ],
            RequestKind::Offers => seq![79u8, 102, 102, 101, 114, 115],
            RequestKind::OffersInsert => seq![
                79u8,
                102,
                102,
                101,
                114,
                115,
                73,
                110,
                115,
                101,
                114,
                116,
            ],
            RequestKind::OffersTables => seq![
                79u8,
                102,
                102,
                101,
                114,
                115,
                84,
                97,
                98,
                108,
                101,
                115,
            ],
            RequestKind::Orders => seq![79u8, 114, 100, 101, 114, 115],
            RequestKind::OrdersFinish => seq![
                79u8,
                114,
                100,
                101,
                114,
                115,
                70,
                105,
                110,
                105,
                115,
                104,
            ],
        },
{
    reveal_strlit("Tables");
    reveal_strlit("TablesInsert");
    reveal_strlit("TablesDelete");
    reveal_strlit("Offers");
    reveal_strlit("OffersInsert");
    reveal_strlit("OffersTables");
    reveal_strlit("Orders");
    reveal_strlit("OrdersFinish");
    is_ascii_chars_encode_utf8(kind.name_spec());
}

/// A token holds neither of the two separators of a frame, the
/// exclamation mark and the colon.
pub proof fn lemma_token_has_no_separator(kind: RequestKind)
    ensures
        forall|i: int| 0 <= i < kind.token().len() ==> kind.token()[i] != 33 && kind.token()[i] != 58,
{
    lemma_token_bytes(kind);
}

/// Every kind is named by its own token and by no other.
pub proof fn lemma_kind_of_token(kind: RequestKind)
    ensures
        kind_of_token(kind.token()) == Some(kind),
        forall|token: Seq<u8>| kind_of_token(token) == Some(kind) ==> token == kind.token(),
{
    lemma_token_bytes(RequestKind::Tables);
    lemma_token_bytes(RequestKind::TablesInsert);
    lemma_token_bytes(RequestKind::TablesDelete);
    lemma_token_bytes(RequestKind::Offers);
    lemma_token_bytes(RequestKind::OffersInsert);
    lemma_token_bytes(RequestKind::OffersTables);
    lemma_token_bytes(RequestKind::Orders);
    lemma_token_bytes(RequestKind::OrdersFinish);
    assert(RequestKind::TablesInsert.token().len() == 12);
    assert(RequestKind::TablesDelete.token().len() == 12);
    assert(RequestKind::OffersInsert.token().len() == 12);
    assert(RequestKind::OffersTables.token().len() == 12);
    assert(RequestKind::OrdersFinish.token().len() == 12);
}

impl RequestKind {
    /// Reads the kind that the bytes of `text` from `from` up to `to`
    /// name, if they name one.
    pub fn from_token(text: &[u8], from: usize, to: usize) -> (kind: Option<RequestKind>)
        requires
            from <= to <= text.len(),
        ensures
            kind == kind_of_token(text@.subrange(from as int, to as int)),
    {
        if range_equals(text, from, to, RequestKind::Tables.name().as_bytes()) {
            Some(RequestKind::Tables)
        } else if range_equals(text, from, to, RequestKind::TablesInsert.name().as_bytes()) {
            Some(RequestKind::TablesInsert)
        } else if range_equals(text, from, to, RequestKind::TablesDelete.name().as_bytes()) {
            Some(RequestKind::TablesDelete)
        } else if range_equals(text, from, to, RequestKind::Offers.name().as_bytes()) {
            Some(RequestKind::Offers)
        } else if range_equals(text, from, to, RequestKind::OffersInsert.name().as_bytes()) {
            Some(RequestKind::OffersInsert)
        } else if range_equals(text, from, to, RequestKind::OffersTables.name().as_bytes()) {
            Some(RequestKind::OffersTables)
        } else if range_equals(text, from, to, RequestKind::Orders.name().as_bytes()) {
            Some(RequestKind::Orders)
        } else if range_equals(text, from, to, RequestKind::OrdersFinish.name().as_bytes()) {
            Some(RequestKind::OrdersFinish)
        } else {
            None
        }
    }
}

} // verus!
