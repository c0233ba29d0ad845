//! Messages between server and client, and their form on the wire.
//!
//! A message travels as one JSON text, which a person can read and type. A
//! variant without fields is its name as a JSON string; a variant with
//! fields is an object that holds the name under `variant` and the fields,
//! in order, under `fields`:
//!
//! ```text
//! "ConnectRequest"
//! {"variant":"CreateGameRequest","fields":[3]}
//! ```
//!
//! Decoding reads more than encoding writes. It takes any JSON text whose
//! value holds such a record: with white space, with the keys in any order
//! and with others beside them, with more fields than the variant has, and
//! with the identifier as a string of digits. Everything else is an error,
//! and the error says what was missing. A text on which the parser might
//! panic is an error before the parser sees it.

use crate::json::{is_exponent_mark, is_no_last_comma, is_no_long_exponent, listed, openings};
use crate::json::quoted;
use crate::json::{emit_variant, parsed, parser_takes, parser_takes_text, variant_text, Tree};
use crate::json::{MAX_EXPONENT_DIGITS, MAX_OPENINGS};
use crate::text::{decimal_text, is_digit, lemma_decimal_text_is_decimal};
use crate::text::{number_of_text, parse_usize, same_text, trimmed, trimmed_end};
use vstd::arithmetic::power2::{lemma2_to64, lemma_pow2_strictly_increases, lemma_pow2_unfold, pow2};
use vstd::utf8::{encode_utf8, is_ascii_chars, is_ascii_chars_encode_utf8};
use rustc_serialize::json::{EncoderError, Json, ParserError};
use vstd::prelude::*;

verus! {

/// What the server answers.
#[derive(PartialEq, Eq, Structural, Debug)]
pub enum ServerToClient {
    /// The identity that was assigned.
    ConnectResponse { user_id: usize },
    /// The game that was opened.
    CreateGameResponse { game_id: usize },
}

/// What a client asks for.
#[derive(PartialEq, Eq, Structural, Debug)]
pub enum ClientToServer {
    /// An identity.
    ConnectRequest,
    /// A game hosted by this user.
    CreateGameRequest { user_id: usize },
}

/// A kind of JSON value that a record must hold at some place.
#[derive(Clone, Copy, PartialEq, Eq, Structural, Debug)]
pub enum Kind {
    StringOrObject,
    String,
    Array,
    Number,
    Integer,
}

/// A key of the object that stands for a variant with fields.
#[derive(Clone, Copy, PartialEq, Eq, Structural, Debug)]
pub enum Key {
    Variant,
    Fields,
}

/// Why a text stands for no message.
#[derive(Debug)]
pub enum DecodeError {
    /// The text is not given to the parser: it is too long, it opens too
    /// many arrays and objects, it writes too long an exponent, or it
    /// closes an object behind a comma.
    Refused,
    /// The text is not JSON.
    Syntax(ParserError),
    /// A value of another kind stands where this kind belongs.
    Expected(Kind),
    /// The object lacks this key.
    MissingField(Key),
    /// The message type has no variant of this name.
    UnknownVariant(String),
    /// The variant takes more fields than the record holds.
    NoMoreFields,
}

/// A `DecodeError` as contracts speak of it.
pub enum DecodeFault {
    Refused,
    Syntax,
    Expected(Kind),
    MissingField(Key),
    UnknownVariant(Seq<char>),
    NoMoreFields,
}

impl View for DecodeError {
    type V = DecodeFault;

    open spec fn view(&self) -> DecodeFault {
        match self {
            DecodeError::Refused => DecodeFault::Refused,
            DecodeError::Syntax(_) => DecodeFault::Syntax,
            DecodeError::Expected(kind) => DecodeFault::Expected(*kind),
            DecodeError::MissingField(key) => DecodeFault::MissingField(*key),
            DecodeError::UnknownVariant(name) => DecodeFault::UnknownVariant(name@),
            DecodeError::NoMoreFields => DecodeFault::NoMoreFields,
        }
    }
}

/// What `result` says, with its error as contracts speak of it.
pub open spec fn outcome<T>(result: Result<T, DecodeError>) -> Result<T, DecodeFault> {
    match result {
        Ok(value) => Ok(value),
        Err(error) => Err(error@),
    }
}

/// What `text` is read as, where `meaning` says what the value of a JSON
/// text stands for: nothing, if the text is not given to the parser or is
/// not JSON, and else what its value stands for.
pub open spec fn read_with<M>(
    text: Seq<char>,
    meaning: spec_fn(Tree) -> Result<M, DecodeFault>,
) -> Result<M, DecodeFault> {
    if !parser_takes(text) {
        Err(DecodeFault::Refused)
    } else {
        match parsed(text) {
            Some(tree) => meaning(tree),
            None => Err(DecodeFault::Syntax),
        }
    }
}

/// The name of a variant and the values given for its fields.
pub struct Record {
    pub variant: Seq<char>,
    pub fields: Seq<Tree>,
}

/// The record that `tree` holds: a string names a variant and gives no
/// fields; an object gives the name as a string under `variant` and the
/// fields as an array under `fields`, and may hold more.
pub open spec fn record_of(tree: Tree) -> Result<Record, DecodeFault> {
    match tree {
        Tree::String(name) => Ok(Record { variant: name, fields: Seq::empty() }),
        Tree::Object(entries) => {
            if !entries.contains_key("variant"@) {
                Err(DecodeFault::MissingField(Key::Variant))
            } else if !(entries["variant"@] is String) {
                Err(DecodeFault::Expected(Kind::String))
            } else if !entries.contains_key("fields"@) {
                Err(DecodeFault::MissingField(Key::Fields))
            } else if !(entries["fields"@] is Array) {
                Err(DecodeFault::Expected(Kind::Array))
            } else {
                Ok(
                    Record {
                        variant: entries["variant"@]->String_0,
                        fields: entries["fields"@]->Array_0,
                    },
                )
            }
        },
        _ => Err(DecodeFault::Expected(Kind::StringOrObject)),
    }
}

/// The identifier that `tree` gives: an integer that is not negative and
/// fits, or a string that writes one.
pub open spec fn number_of(tree: Tree) -> Result<usize, DecodeFault> {
    match tree {
        Tree::I64(number) => if 0 <= number <= usize::MAX {
            Ok(number as usize)
        } else {
            Err(DecodeFault::Expected(Kind::Number))
        },
        Tree::U64(number) => if number <= usize::MAX {
            Ok(number as usize)
        } else {
            Err(DecodeFault::Expected(Kind::Number))
        },
        Tree::Float => Err(DecodeFault::Expected(Kind::Integer)),
        Tree::String(text) => match number_of_text(text) {
            Some(number) => Ok(number),
            None => Err(DecodeFault::Expected(Kind::Number)),
        },
        _ => Err(DecodeFault::Expected(Kind::Number)),
    }
}

/// The identifier that the first of `fields` gives.
pub open spec fn first_number(fields: Seq<Tree>) -> Result<usize, DecodeFault> {
    if fields.len() == 0 {
        Err(DecodeFault::NoMoreFields)
    } else {
        number_of(fields[0])
    }
}

/// The tree of the text that stands for a variant `name` with `fields`.
pub open spec fn record_tree(name: Seq<char>, fields: Seq<usize>) -> Tree {
    if fields.len() == 0 {
        Tree::String(name)
    } else {
        Tree::Object(
            map![
                "variant"@ => Tree::String(name),
                "fields"@ => Tree::Array(fields.map_values(|field: usize| Tree::U64(field as u64))),
            ],
        )
    }
}

/// A type of messages: how each is written, and what is read as one.
pub trait Message: Sized {
    /// The name of this message's variant.
    spec fn name(&self) -> Seq<char>;

    /// The fields of this message, in order.
    spec fn fields(&self) -> Seq<usize>;

    /// The message that `tree` stands for, or why it stands for none.
    spec fn of_tree(tree: Tree) -> Result<Self, DecodeFault>;

    /// The record that stands for a message decodes to that message.
    proof fn lemma_record_round_trip(message: Self)
        ensures
            Self::of_tree(record_tree(message.name(), message.fields())) == Ok::<Self, DecodeFault>(
                message,
            ),
    ;

    /// Nothing decodes by accident: a tree that decodes to a message holds
    /// a record that names the message's variant and, where the variant has
    /// a field, gives that field first.
    proof fn lemma_decoded_is_named(tree: Tree, message: Self)
        requires
            Self::of_tree(tree) == Ok::<Self, DecodeFault>(message),
        ensures
            record_of(tree) matches Ok(record) && record.variant == message.name() && (
            message.fields().len() > 0 ==> first_number(record.fields) == Ok::<usize, DecodeFault>(
                message.fields()[0],
            )),
    ;

    /// Two messages that are not the same do not have the same text.
    proof fn lemma_texts_differ(one: Self, other: Self)
        requires
            variant_text(one.name(), one.fields()) == variant_text(other.name(), other.fields()),
        ensures
            one == other,
    ;

    /// The text of a message is one that is given to the parser.
    proof fn lemma_text_is_taken(message: Self)
        ensures
            parser_takes(variant_text(message.name(), message.fields())),
    ;

    /// Encodes this message: hands out what the encoder wrote, which is
    /// the message's text on the wire.
    fn stringify(&self) -> (result: Result<String, EncoderError>)
        ensures
            result matches Ok(text) && text@ == variant_text(self.name(), self.fields()),
    ;

    /// Decodes the message that the value `json` stands for.
    fn from_json(json: &Json) -> (result: Result<Self, DecodeError>)
        ensures
            outcome(result) == Self::of_tree(crate::json::tree_of(*json)),
    ;

    /// Decodes the message that `text` stands for: parses the text as JSON,
    /// unless the parser might panic on it, and decodes the value.
    fn parse(text: &str) -> (result: Result<Self, DecodeError>)
        ensures
            outcome(result) == read_with(text@, |tree: Tree| Self::of_tree(tree)),
    {
        if !parser_takes_text(text) {
            return Err(DecodeError::Refused);
        }
        match Json::from_str(text) {
            Ok(json) => Self::from_json(&json),
            Err(error) => Err(DecodeError::Syntax(error)),
        }
    }
}

/// The text that stands for `message` on the wire.
pub open spec fn wire_text<M: Message>(message: M) -> Seq<char> {
    variant_text(message.name(), message.fields())
}

/// The message that `text` stands for, or why it stands for none.
pub open spec fn of_text<M: Message>(text: Seq<char>) -> Result<M, DecodeFault> {
    read_with(text, |tree: Tree| M::of_tree(tree))
}

/// Round trip, as far as this library can say: if the parser reads the
/// text of a message as the record that the text was written from, then the
/// text decodes to the message. That the parser does so is what this law
/// takes as given; the parser is not described here.
pub proof fn lemma_round_trip<M: Message>(message: M)
    ensures
        parsed(wire_text(message)) == Some(record_tree(message.name(), message.fields()))
            ==> of_text::<M>(wire_text(message)) == Ok::<M, DecodeFault>(message),
{
    M::lemma_text_is_taken(message);
    M::lemma_record_round_trip(message);
}

/// The text of a message has no white space at either end, so it goes
/// through a trim as it is.
pub proof fn lemma_wire_text_is_trimmed<M: Message>(message: M)
    ensures
        trimmed_end(wire_text(message)) == wire_text(message),
        trimmed(wire_text(message)) == wire_text(message),
{
    let text = wire_text(message);
    reveal_strlit("{\"variant\":");
    reveal_strlit("]}");
    assert(text.first() == '"' || text.first() == '{');
    assert(text.last() == '"' || text.last() == '}');
}

/// Whether `c` needs another character behind it: `e` and `E`, which would
/// else begin an exponent, and the comma.
spec fn leans(c: char) -> bool {
    c == 'e' || c == 'E' || c == ','
}

/// Whether `c` is none of the characters that the test for the parser looks
/// for behind an `e` or a comma.
spec fn is_harmless(c: char) -> bool {
    !is_digit(c) && c != '+' && c != '-' && c != ' ' && c != '\n' && c != '\r' && c != '\t' && c
        != '}'
}

/// Whether every `e`, every `E` and every comma in `text` is followed by a
/// character, and by a harmless one.
spec fn is_calm(text: Seq<char>) -> bool {
    forall|i: int|
        0 <= i < text.len() && leans(#[trigger] text[i]) ==> i + 1 < text.len() && is_harmless(
            text[i + 1],
        )
}

/// Calm texts in a row are a calm text.
proof fn lemma_calm_texts_join(front: Seq<char>, back: Seq<char>)
    requires
        is_calm(front),
        is_calm(back),
    ensures
        is_calm(front + back),
{
    let text = front + back;
    assert forall|i: int| 0 <= i < text.len() && leans(#[trigger] text[i]) implies i + 1
        < text.len() && is_harmless(text[i + 1]) by {
        if i < front.len() {
            assert(front[i] == text[i]);
            assert(front[i + 1] == text[i + 1]);
        } else {
            assert(back[i - front.len()] == text[i]);
            assert(back[i - front.len() + 1] == text[i + 1]);
        }
    }
}

/// No more than the first `upto` of `bytes` open an array or an object.
proof fn lemma_openings_are_bytes(bytes: Seq<u8>, upto: int)
    requires
        0 <= upto,
    ensures
        openings(bytes, upto) <= upto,
    decreases upto,
{
    if upto > 0 {
        lemma_openings_are_bytes(bytes, upto - 1);
    }
}

/// A number below two to the power of `bits` has `bits` decimal digits at
/// most.
proof fn lemma_decimal_text_is_short(number: nat, bits: nat)
    requires
        bits >= 1,
        number < pow2(bits),
    ensures
        decimal_text(number).len() <= bits,
    decreases number,
{
    if number >= 10 {
        lemma2_to64();
        if bits < 4 {
            lemma_pow2_strictly_increases(bits, 4);
        }
        lemma_pow2_unfold(bits);
        lemma_decimal_text_is_short(number / 10, (bits - 1) as nat);
    }
}

/// A short calm text of ASCII characters may be given to the parser.
proof fn lemma_calm_text_is_taken(text: Seq<char>)
    requires
        is_ascii_chars(text),
        is_calm(text),
        text.len() <= MAX_OPENINGS,
    ensures
        parser_takes(text),
{
    let bytes = encode_utf8(text);
    is_ascii_chars_encode_utf8(text);
    lemma_openings_are_bytes(bytes, bytes.len() as int);
    assert forall|place: int| 0 <= place < bytes.len() implies #[trigger] is_no_long_exponent(
        bytes,
        place,
    ) by {
        let c = text[place];
        assert(c as u8 == bytes[place]);
        if is_exponent_mark(bytes[place]) {
            assert(c == 'e' || c == 'E');
            assert(text[place + 1] as u8 == bytes[place + 1]);
        }
    }
    assert forall|place: int| 0 <= place < bytes.len() implies #[trigger] is_no_last_comma(
        bytes,
        place,
    ) by {
        let c = text[place];
        assert(c as u8 == bytes[place]);
        if bytes[place] == 0x2c {
            assert(c == ',');
            assert(text[place + 1] as u8 == bytes[place + 1]);
        }
    }
}

/// The text of a variant with a short name, calm before a quote, and one
/// field at most may be given to the parser.
proof fn lemma_variant_text_is_taken(name: Seq<char>, fields: Seq<usize>)
    requires
        is_ascii_chars(name),
        is_calm(name + seq!['"']),
        name.len() <= 20,
        fields.len() <= 1,
    ensures
        parser_takes(variant_text(name, fields)),
{
    reveal_strlit("{\"variant\":");
    reveal_strlit(",\"fields\":[");
    reveal_strlit("]}");
    let quote = seq!['"'];
    lemma_calm_texts_join(quote, name + quote);
    assert(quoted(name) =~= quote + (name + quote));
    if fields.len() == 1 {
        let digits = decimal_text(fields[0] as nat);
        lemma_decimal_text_is_decimal(fields[0] as nat);
        lemma2_to64();
        lemma_decimal_text_is_short(fields[0] as nat, 64);
        assert(is_calm(digits));
        assert(is_ascii_chars(digits));
        lemma_calm_texts_join("{\"variant\":"@, quoted(name));
        lemma_calm_texts_join("{\"variant\":"@ + quoted(name), ",\"fields\":["@);
        lemma_calm_texts_join("{\"variant\":"@ + quoted(name) + ",\"fields\":["@, digits);
        lemma_calm_texts_join(
            "{\"variant\":"@ + quoted(name) + ",\"fields\":["@ + digits,
            "]}"@,
        );
    }
    lemma_calm_text_is_taken(variant_text(name, fields));
}

/// Reads the name and the fields of the record that `json` holds.
fn read_record<'a>(json: &'a Json) -> (result: Result<(String, Option<&'a Vec<Json>>), DecodeError>)
    ensures
        match result {
            Ok((variant, fields)) => record_of(crate::json::tree_of(*json)) == Ok::<
                Record,
                DecodeFault,
            >(
                Record {
                    variant: variant@,
                    fields: match fields {
                        Some(items) => crate::json::trees_of(items@),
                        None => Seq::empty(),
                    },
                },
            ),
            Err(error) => record_of(crate::json::tree_of(*json)) == Err::<Record, DecodeFault>(
                error@,
            ),
        },
{
    if let Some(name) = json.as_string() {
        return Ok((name.to_owned(), None));
    }
    if !json.is_object() {
        return Err(DecodeError::Expected(Kind::StringOrObject));
    }
    let variant = match json.find("variant") {
        None => {
            return Err(DecodeError::MissingField(Key::Variant));
        },
        Some(value) => match value.as_string() {
            None => {
                return Err(DecodeError::Expected(Kind::String));
            },
            Some(name) => name.to_owned(),
        },
    };
    match json.find("fields") {
        None => Err(DecodeError::MissingField(Key::Fields)),
        Some(value) => match value.as_array() {
            None => Err(DecodeError::Expected(Kind::Array)),
            Some(items) => Ok((variant, Some(items))),
        },
    }
}

/// Reads the identifier that `json` gives.
fn read_number(json: &Json) -> (result: Result<usize, DecodeError>)
    ensures
        outcome(result) == number_of(crate::json::tree_of(*json)),
{
    if let Some(number) = json.as_u64() {
        if number <= usize::MAX as u64 {
            Ok(number as usize)
        } else {
            Err(DecodeError::Expected(Kind::Number))
        }
    } else if json.is_f64() {
        Err(DecodeError::Expected(Kind::Integer))
    } else if let Some(text) = json.as_string() {
        match parse_usize(text) {
            Some(number) => Ok(number),
            None => Err(DecodeError::Expected(Kind::Number)),
        }
    } else {
        Err(DecodeError::Expected(Kind::Number))
    }
}

/// Reads the identifier that the first of `fields` gives.
fn read_first_number(fields: Option<&Vec<Json>>) -> (result: Result<usize, DecodeError>)
    ensures
        outcome(result) == first_number(
            match fields {
                Some(items) => crate::json::trees_of(items@),
                None => Seq::empty(),
            },
        ),
{
    match fields {
        None => Err(DecodeError::NoMoreFields),
        Some(items) => {
            if items.len() == 0 {
                Err(DecodeError::NoMoreFields)
            } else {
                read_number(&items[0])
            }
        },
    }
}

impl Message for ClientToServer {
    open spec fn name(&self) -> Seq<char> {
        match self {
            ClientToServer::ConnectRequest => "ConnectRequest"@,
            ClientToServer::CreateGameRequest { .. } => "CreateGameRequest"@,
        }
    }

    open spec fn fields(&self) -> Seq<usize> {
        match self {
            ClientToServer::ConnectRequest => Seq::empty(),
            ClientToServer::CreateGameRequest { user_id } => seq![*user_id],
        }
    }

    open spec fn of_tree(tree: Tree) -> Result<Self, DecodeFault> {
        match record_of(tree) {
            Err(fault) => Err(fault),
            Ok(record) => if record.variant == "ConnectRequest"@ {
                Ok(ClientToServer::ConnectRequest)
            } else if record.variant == "CreateGameRequest"@ {
                match first_number(record.fields) {
                    Ok(user_id) => Ok(ClientToServer::CreateGameRequest { user_id }),
                    Err(fault) => Err(fault),
                }
            } else {
                Err(DecodeFault::UnknownVariant(record.variant))
            },
        }
    }

    fn stringify(&self) -> (result: Result<String, EncoderError>) {
        proof {
            lemma_names_are_plain();
        }
        match self {
            ClientToServer::ConnectRequest => emit_variant("ConnectRequest", 0, &Vec::new()),
            ClientToServer::CreateGameRequest { user_id } => emit_variant(
                "CreateGameRequest",
                1,
                &vec![*user_id],
            ),
        }
    }

    proof fn lemma_record_round_trip(message: Self) {
        lemma_names_differ();
        lemma_record_tree_holds(message.name(), message.fields());
    }

    proof fn lemma_decoded_is_named(tree: Tree, message: Self) {
        lemma_names_differ();
    }

    proof fn lemma_text_is_taken(message: Self) {
        lemma_names_are_calm();
        lemma_variant_text_is_taken(message.name(), message.fields());
    }

    proof fn lemma_texts_differ(one: Self, other: Self) {
        reveal_strlit("{\"variant\":");
        match (one, other) {
            (
                ClientToServer::CreateGameRequest { user_id: first },
                ClientToServer::CreateGameRequest { user_id: second },
            ) => {
                lemma_field_is_in_the_text("CreateGameRequest"@, first, second);
            },
            (ClientToServer::ConnectRequest, ClientToServer::CreateGameRequest { .. }) => {
                assert(variant_text(one.name(), one.fields()).first() == '"');
                assert(variant_text(other.name(), other.fields()).first() == '{');
            },
            (ClientToServer::CreateGameRequest { .. }, ClientToServer::ConnectRequest) => {
                assert(variant_text(one.name(), one.fields()).first() == '{');
                assert(variant_text(other.name(), other.fields()).first() == '"');
            },
            _ => {},
        }
    }

    fn from_json(json: &Json) -> (result: Result<Self, DecodeError>) {
        let (variant, fields) = read_record(json)?;
        if same_text(variant.as_str(), "ConnectRequest") {
            Ok(ClientToServer::ConnectRequest)
        } else if same_text(variant.as_str(), "CreateGameRequest") {
            let user_id = read_first_number(fields)?;
            Ok(ClientToServer::CreateGameRequest { user_id })
        } else {
            Err(DecodeError::UnknownVariant(variant))
        }
    }
}

impl Message for ServerToClient {
    open spec fn name(&self) -> Seq<char> {
        match self {
            ServerToClient::ConnectResponse { .. } => "ConnectResponse"@,
            ServerToClient::CreateGameResponse { .. } => "CreateGameResponse"@,
        }
    }

    open spec fn fields(&self) -> Seq<usize> {
        match self {
            ServerToClient::ConnectResponse { user_id } => seq![*user_id],
            ServerToClient::CreateGameResponse { game_id } => seq![*game_id],
        }
    }

    open spec fn of_tree(tree: Tree) -> Result<Self, DecodeFault> {
        match record_of(tree) {
            Err(fault) => Err(fault),
            Ok(record) => if record.variant == "ConnectResponse"@ {
                match first_number(record.fields) {
                    Ok(user_id) => Ok(ServerToClient::ConnectResponse { user_id }),
                    Err(fault) => Err(fault),
                }
            } else if record.variant == "CreateGameResponse"@ {
                match first_number(record.fields) {
                    Ok(game_id) => Ok(ServerToClient::CreateGameResponse { game_id }),
                    Err(fault) => Err(fault),
                }
            } else {
                Err(DecodeFault::UnknownVariant(record.variant))
            },
        }
    }

    fn stringify(&self) -> (result: Result<String, EncoderError>) {
        proof {
            lemma_names_are_plain();
        }
        match self {
            ServerToClient::ConnectResponse { user_id } => emit_variant(
                "ConnectResponse",
                0,
                &vec![*user_id],
            ),
            ServerToClient::CreateGameResponse { game_id } => emit_variant(
                "CreateGameResponse",
                1,
                &vec![*game_id],
            ),
        }
    }

    proof fn lemma_record_round_trip(message: Self) {
        lemma_names_differ();
        lemma_record_tree_holds(message.name(), message.fields());
    }

    proof fn lemma_decoded_is_named(tree: Tree, message: Self) {
        lemma_names_differ();
    }

    proof fn lemma_text_is_taken(message: Self) {
        lemma_names_are_calm();
        lemma_variant_text_is_taken(message.name(), message.fields());
    }

    proof fn lemma_texts_differ(one: Self, other: Self) {
        reveal_strlit("{\"variant\":");
        reveal_strlit("ConnectResponse");
        reveal_strlit("CreateGameResponse");
        match (one, other) {
            (
                ServerToClient::ConnectResponse { user_id: first },
                ServerToClient::ConnectResponse { user_id: second },
            ) => {
                lemma_field_is_in_the_text("ConnectResponse"@, first, second);
            },
            (
                ServerToClient::CreateGameResponse { game_id: first },
                ServerToClient::CreateGameResponse { game_id: second },
            ) => {
                lemma_field_is_in_the_text("CreateGameResponse"@, first, second);
            },
            _ => {
                // The second letter of the name stands at the same place in
                // both texts.
                assert(variant_text(one.name(), one.fields())[13] == one.name()[1]);
                assert(variant_text(other.name(), other.fields())[13] == other.name()[1]);
            },
        }
    }

    fn from_json(json: &Json) -> (result: Result<Self, DecodeError>) {
        let (variant, fields) = read_record(json)?;
        if same_text(variant.as_str(), "ConnectResponse") {
            let user_id = read_first_number(fields)?;
            Ok(ServerToClient::ConnectResponse { user_id })
        } else if same_text(variant.as_str(), "CreateGameResponse") {
            let game_id = read_first_number(fields)?;
            Ok(ServerToClient::CreateGameResponse { game_id })
        } else {
            Err(DecodeError::UnknownVariant(variant))
        }
    }
}

/// The texts of one variant with one field each are the same only if the
/// fields are.
proof fn lemma_field_is_in_the_text(name: Seq<char>, first: usize, second: usize)
    requires
        variant_text(name, seq![first]) == variant_text(name, seq![second]),
    ensures
        first == second,
{
    let front = "{\"variant\":"@ + quoted(name) + ",\"fields\":["@;
    let one = decimal_text(first as nat);
    let other = decimal_text(second as nat);
    assert(listed(seq![first]) == one);
    assert(listed(seq![second]) == other);
    let text = variant_text(name, seq![first]);
    assert(text == front + one + "]}"@);
    assert(text == front + other + "]}"@);
    assert(one.len() == other.len());
    assert(one =~= text.subrange(front.len() as int, (front.len() + one.len()) as int));
    assert(other =~= text.subrange(front.len() as int, (front.len() + other.len()) as int));
    lemma_decimal_text_is_decimal(first as nat);
    lemma_decimal_text_is_decimal(second as nat);
}

/// The two names of each message type are not the same text.
proof fn lemma_names_differ()
    ensures
        "ConnectRequest"@ != "CreateGameRequest"@,
        "ConnectResponse"@ != "CreateGameResponse"@,
{
    reveal_strlit("ConnectRequest");
    reveal_strlit("CreateGameRequest");
    reveal_strlit("ConnectResponse");
    reveal_strlit("CreateGameResponse");
    assert("ConnectRequest"@.len() != "CreateGameRequest"@.len());
    assert("ConnectResponse"@.len() != "CreateGameResponse"@.len());
}

/// The tree of a variant's text holds the variant's name and, as its
/// fields, the numbers given.
proof fn lemma_record_tree_holds(name: Seq<char>, fields: Seq<usize>)
    ensures
        record_of(record_tree(name, fields)) == Ok::<Record, DecodeFault>(
            Record { variant: name, fields: fields.map_values(|field: usize| Tree::U64(field as u64)) },
        ),
        fields.len() > 0 ==> first_number(fields.map_values(|field: usize| Tree::U64(field as u64)))
            == Ok::<usize, DecodeFault>(fields[0]),
{
    reveal_strlit("variant");
    reveal_strlit("fields");
    assert("variant"@.len() != "fields"@.len());
    if fields.len() == 0 {
        assert(fields.map_values(|field: usize| Tree::U64(field as u64)) =~= Seq::<Tree>::empty());
    }
}

/// Whether `name` is a short name of ASCII characters that is calm before a
/// quote.
spec fn is_short_and_calm(name: Seq<char>) -> bool {
    is_ascii_chars(name) && is_calm(name + seq!['"']) && name.len() <= 20
}

/// The four variant names are short, and no `e` in them has a digit or a
/// sign behind it.
proof fn lemma_names_are_calm()
    ensures
        is_short_and_calm("ConnectRequest"@),
        is_short_and_calm("CreateGameRequest"@),
        is_short_and_calm("ConnectResponse"@),
        is_short_and_calm("CreateGameResponse"@),
{
    reveal_strlit("ConnectRequest");
    reveal_strlit("CreateGameRequest");
    reveal_strlit("ConnectResponse");
    reveal_strlit("CreateGameResponse");
}

/// The four variant names hold nothing that the encoder would escape.
proof fn lemma_names_are_plain()
    ensures
        crate::json::is_plain("ConnectRequest"@),
        crate::json::is_plain("CreateGameRequest"@),
        crate::json::is_plain("ConnectResponse"@),
        crate::json::is_plain("CreateGameResponse"@),
{
    reveal_strlit("ConnectRequest");
    reveal_strlit("CreateGameRequest");
    reveal_strlit("ConnectResponse");
    reveal_strlit("CreateGameResponse");
}

} // verus!
