//! The offer manager: the list of offers and the form by which one is
//! added.

use vstd::prelude::*;
use vstd::string::*;
use vstd::utf8::encode_utf8;
use crate::dbt::{snapshot_view, Offer, OfferModel, VirtualTableID};
use crate::decimal::{parse_u32, parse_u32_spec};
use crate::request::{Command, CommandModel, Request, RequestModel};
use crate::scan::{find_from, lemma_position_found, position};

verus! {

/// The events of the offer manager.
#[derive(Clone, Debug, PartialEq, Eq)]
pub enum OfferManagerMessage {
    /// A fetch of the offers ended.
    FetchedOffers(Result<Vec<Offer>, String>),
    /// The user asked for a deletion.
    DeleteOffers(VirtualTableID),
    /// The deletion ended.
    DeleteOffersPost(Result<(), String>),
    /// The user submitted the form.
    AddOffers,
    /// The insertion ended.
    AddOffersPost(Result<(), String>),
    /// The user edited the name field.
    TextInputedName(String),
    /// The user edited the description field.
    TextInputedDescription(String),
    /// The user edited the price field.
    TextInputedPrice(String),
}

/// The model of an [`OfferManagerMessage`].
pub enum OfferManagerMessageModel {
    FetchedOffers(Result<Seq<OfferModel>, Seq<char>>),
    DeleteOffers(Seq<char>),
    DeleteOffersPost(Result<(), Seq<char>>),
    AddOffers,
    AddOffersPost(Result<(), Seq<char>>),
    TextInputedName(Seq<char>),
    TextInputedDescription(Seq<char>),
    TextInputedPrice(Seq<char>),
}

/// The model of the outcome of a request that returns no data.
pub open spec fn outcome_view(outcome: Result<(), String>) -> Result<(), Seq<char>> {
    match outcome {
        Ok(()) => Ok(()),
        Err(failure) => Err(failure@),
    }
}

impl DeepView for OfferManagerMessage {
    type V = OfferManagerMessageModel;

    open spec fn deep_view(&self) -> OfferManagerMessageModel {
        match self {
            OfferManagerMessage::FetchedOffers(r) => OfferManagerMessageModel::FetchedOffers(
                snapshot_view(*r),
            ),
            OfferManagerMessage::DeleteOffers(t) => OfferManagerMessageModel::DeleteOffers(t@),
            OfferManagerMessage::DeleteOffersPost(r) => OfferManagerMessageModel::DeleteOffersPost(
                outcome_view(*r),
            ),
            OfferManagerMessage::AddOffers => OfferManagerMessageModel::AddOffers,
            OfferManagerMessage::AddOffersPost(r) => OfferManagerMessageModel::AddOffersPost(
                outcome_view(*r),
            ),
            OfferManagerMessage::TextInputedName(t) => OfferManagerMessageModel::TextInputedName(
                t@,
            ),
            OfferManagerMessage::TextInputedDescription(t) =>
                OfferManagerMessageModel::TextInputedDescription(t@),
            OfferManagerMessage::TextInputedPrice(t) => OfferManagerMessageModel::TextInputedPrice(
                t@,
            ),
        }
    }
}

/// Names the message by which the outcome of a request comes back.
#[derive(Clone, Copy, Debug, PartialEq, Eq, Structural)]
pub enum OfferManagerReply {
    /// Comes back as [`OfferManagerMessage::FetchedOffers`].
    Offers,
    /// Comes back as [`OfferManagerMessage::DeleteOffersPost`].
    Deleted,
    /// Comes back as [`OfferManagerMessage::AddOffersPost`].
    Added,
}

/// The state of the offer manager: the offers last fetched, and what the
/// three fields of the form hold.
#[derive(Clone, Debug, PartialEq, Eq)]
pub struct OfferManager {
    pub fetch_offers: Result<Vec<Offer>, String>,
    pub offer_name_text_input: String,
    pub offer_description_text_input: String,
    pub offer_price_text_input: String,
}

/// The model of an [`OfferManager`].
pub struct OfferManagerModel {
    pub offers: Result<Seq<OfferModel>, Seq<char>>,
    pub name_input: Seq<char>,
    pub description_input: Seq<char>,
    pub price_input: Seq<char>,
}

impl DeepView for OfferManager {
    type V = OfferManagerModel;

    open spec fn deep_view(&self) -> OfferManagerModel {
        OfferManagerModel {
            offers: snapshot_view(self.fetch_offers),
            name_input: self.offer_name_text_input@,
            description_input: self.offer_description_text_input@,
            price_input: self.offer_price_text_input@,
        }
    }
}

/// The price that `text` denotes: the major units, a comma, the
/// hundredths, both as unsigned decimal numbers and the hundredths below
/// one hundred. Only the first comma separates. Any other text denotes no
/// price.
pub open spec fn parse_price_spec(text: Seq<u8>) -> Option<(u32, u32)> {
    let comma = position(text, 44);
    if comma >= text.len() {
        None
    } else {
        match (parse_u32_spec(text.take(comma)), parse_u32_spec(text.skip(comma + 1))) {
            (Some(integer), Some(fraction)) => if fraction < 100 {
                Some((integer, fraction))
            } else {
                None
            },
            _ => None,
        }
    }
}

/// Reads a price from the text of the price field.
pub fn parse_price(text: &str) -> (price: Option<(u32, u32)>)
    ensures
        price == parse_price_spec(encode_utf8(text@)),
{
    let bytes = text.as_bytes();
    let comma = find_from(bytes, 0, 44);
    assert(bytes@.skip(0) =~= bytes@);
    if comma >= bytes.len() {
        return None;
    }
    let integer = match parse_u32(bytes, 0, comma) {
        Some(integer) => integer,
        None => return None,
    };
    let fraction = match parse_u32(bytes, comma + 1, bytes.len()) {
        Some(fraction) => fraction,
        None => return None,
    };
    if fraction >= 100 {
        return None;
    }
    Some((integer, fraction))
}

/// The command that fetches the offers again.
pub open spec fn refresh_offers() -> CommandModel<OfferManagerReply> {
    CommandModel::Send { request: RequestModel::Offers, reply: OfferManagerReply::Offers }
}

/// The offer that the form describes, if every field is filled and the
/// price field holds a price. The offer takes both its name and its
/// description from the description field; the name field must only be
/// filled.
pub open spec fn offer_of_form(state: OfferManagerModel) -> Option<OfferModel> {
    if state.name_input.len() == 0 || state.price_input.len() == 0
        || state.description_input.len() == 0 {
        None
    } else {
        match parse_price_spec(encode_utf8(state.price_input)) {
            Some((integer, fraction)) => Some(
                OfferModel {
                    name: state.description_input,
                    description: state.description_input,
                    price_integer: integer as nat,
                    price_fraction: fraction as nat,
                },
            ),
            None => None,
        }
    }
}

/// One transition of the offer manager: the state after `message`, and
/// the command the transition issues.
pub open spec fn step(state: OfferManagerModel, message: OfferManagerMessageModel) -> (
    OfferManagerModel,
    CommandModel<OfferManagerReply>,
) {
    match message {
        OfferManagerMessageModel::FetchedOffers(outcome) => (
            OfferManagerModel { offers: outcome, ..state },
            CommandModel::Nothing,
        ),
        OfferManagerMessageModel::DeleteOffers(table) => (
            state,
            CommandModel::Send {
                request: RequestModel::TablesDelete { table: table },
                reply: OfferManagerReply::Deleted,
            },
        ),
        OfferManagerMessageModel::DeleteOffersPost(Ok(())) => (state, refresh_offers()),
        OfferManagerMessageModel::DeleteOffersPost(Err(_)) => (state, CommandModel::Nothing),
        OfferManagerMessageModel::AddOffers => match offer_of_form(state) {
            Some(offer) => (
                state,
                CommandModel::Send {
                    request: RequestModel::OffersInsert { offer: offer },
                    reply: OfferManagerReply::Added,
                },
            ),
            None => (state, CommandModel::Nothing),
        },
        OfferManagerMessageModel::AddOffersPost(Ok(())) => (
            OfferManagerModel {
                name_input: Seq::empty(),
                description_input: Seq::empty(),
                price_input: Seq::empty(),
                ..state
            },
            refresh_offers(),
        ),
        OfferManagerMessageModel::AddOffersPost(Err(_)) => (state, CommandModel::Nothing),
        OfferManagerMessageModel::TextInputedName(text) => (
            OfferManagerModel { name_input: text, ..state },
            CommandModel::Nothing,
        ),
        OfferManagerMessageModel::TextInputedDescription(text) => (
            OfferManagerModel { description_input: text, ..state },
            CommandModel::Nothing,
        ),
        OfferManagerMessageModel::TextInputedPrice(text) => (
            OfferManagerModel { price_input: text, ..state },
            CommandModel::Nothing,
        ),
    }
}

/// Every offer that the form sends keeps its hundredths below one
/// hundred, and nothing is sent while a field is empty.
pub proof fn lemma_form_offers_are_well_formed(state: OfferManagerModel)
    ensures
        offer_of_form(state) matches Some(offer) ==> offer.well_formed()
            && state.name_input.len() > 0 && state.description_input.len() > 0
            && state.price_input.len() > 0,
{
}

/// A fetched list of offers depends on the response alone: it replaces
/// whatever was held, and the same response twice in a row leaves the
/// state of the first.
pub proof fn lemma_repeated_response_same_offers(
    state: OfferManagerModel,
    other: OfferManagerModel,
    outcome: Result<Seq<OfferModel>, Seq<char>>,
)
    ensures
        ({
            let message = OfferManagerMessageModel::FetchedOffers(outcome);
            &&& step(state, message).0.offers == outcome
            &&& step(other, message).0.offers == outcome
            &&& step(step(state, message).0, message) == step(state, message)
        }),
{
}

/// A price needs its comma: text without one denotes no price.
pub proof fn lemma_price_needs_comma(text: Seq<u8>)
    requires
        forall|i: int| 0 <= i < text.len() ==> text[i] != 44,
    ensures
        parse_price_spec(text) is None,
{
    lemma_position_found(text, 44);
}

impl Default for OfferManager {
    /// The offer manager before anything was fetched, with an empty form.
    fn default() -> (manager: OfferManager)
        ensures
            manager.deep_view() == (OfferManagerModel {
                offers: Err("Fetching data..."@),
                name_input: Seq::empty(),
                description_input: Seq::empty(),
                price_input: Seq::empty(),
            }),
    {
        OfferManager {
            fetch_offers: Err(String::from_str("Fetching data...")),
            offer_name_text_input: String::new(),
            offer_description_text_input: String::new(),
            offer_price_text_input: String::new(),
        }
    }
}

impl OfferManager {
    /// Takes one transition: applies `message` to the state and returns the
    /// command that the runtime is to carry out.
    pub fn update(&mut self, message: OfferManagerMessage) -> (command: Command<OfferManagerReply>)
        ensures
            (final(self).deep_view(), command.deep_view()) == step(
                old(self).deep_view(),
                message.deep_view(),
            ),
    {
        match message {
            OfferManagerMessage::FetchedOffers(response) => {
                self.fetch_offers = response;
                Command::Nothing
            },
            OfferManagerMessage::DeleteOffers(table) => Command::Send {
                request: Request::TablesDelete { table },
                reply: OfferManagerReply::Deleted,
            },
            OfferManagerMessage::DeleteOffersPost(result) => match result {
                Ok(()) => Command::Send { request: Request::Offers, reply: OfferManagerReply::Offers },
                Err(_) => Command::Nothing,
            },
            OfferManagerMessage::AddOffers => {
                if self.offer_name_text_input.as_str().is_empty()
                    || self.offer_price_text_input.as_str().is_empty()
                    || self.offer_description_text_input.as_str().is_empty() {
                    return Command::Nothing;
                }
                let (integer, fraction) = match parse_price(self.offer_price_text_input.as_str()) {
                    Some(price) => price,
                    None => return Command::Nothing,
                };
                Command::Send {
                    request: Request::OffersInsert {
                        offer: Offer {
                            name: self.offer_description_text_input.clone(),
                            description: self.offer_description_text_input.clone(),
                            price_integer: integer,
                            price_fraction: fraction,
                        },
                    },
                    reply: OfferManagerReply::Added,
                }
            },
            OfferManagerMessage::AddOffersPost(result) => match result {
                Ok(()) => {
                    self.offer_name_text_input = String::new();
                    self.offer_description_text_input = String::new();
                    self.offer_price_text_input = String::new();
                    Command::Send { request: Request::Offers, reply: OfferManagerReply::Offers }
                },
                Err(_) => Command::Nothing,
            },
            OfferManagerMessage::TextInputedName(text) => {
                self.offer_name_text_input = text;
                Command::Nothing
            },
            OfferManagerMessage::TextInputedDescription(text) => {
                self.offer_description_text_input = text;
                Command::Nothing
            },
            OfferManagerMessage::TextInputedPrice(text) => {
                self.offer_price_text_input = text;
                Command::Nothing
            },
        }
    }
}

} // verus!
