//! JSON as `rustc_serialize::json` reads and writes it.
//!
//! This file declares the outside types, gives names to what a `Json` value
//! holds and to what the parser makes of a text, and states of each outside
//! function that the library calls what its source shows. None of that is
//! proved. What is proved here is the test that keeps from the parser the
//! texts on which it panics. The logic that reads messages is in `message`.

use crate::text::decimal_text;
use rustc_serialize::json::{Encoder, EncoderError, Json, ParserError};
use vstd::prelude::*;

verus! {

/// `rustc_serialize::json::Json`, a JSON value. The library looks into one
/// through the methods specified below only.
#[verifier::external_type_specification]
#[verifier::external_body]
pub struct ExJson(Json);

/// `rustc_serialize::json::ParserError`, the parser's report of a text that
/// is not JSON. The library carries it to its caller and does not look into
/// it.
#[verifier::external_type_specification]
#[verifier::external_body]
pub struct ExParserError(ParserError);

/// `rustc_serialize::json::EncoderError`, the encoder's report of a failure.
/// It stands in the result of the encoder's methods; the calls that the
/// library makes give none.
#[verifier::external_type_specification]
#[verifier::external_body]
pub struct ExEncoderError(EncoderError);

/// What a JSON value holds, variant for variant as `Json` has them. A
/// floating-point number stands here without its digits: nothing in the
/// library reads them.
pub enum Tree {
    Null,
    Boolean(bool),
    I64(i64),
    U64(u64),
    Float,
    String(Seq<char>),
    Array(Seq<Tree>),
    Object(Map<Seq<char>, Tree>),
}

/// What `json` holds. The methods of `Json` specified below say what they
/// return in terms of it.
pub uninterp spec fn tree_of(json: Json) -> Tree;

/// What the value holds that `Json::from_str` builds from `text`, or `None`
/// where it reports an error. No contract says what this is for a given
/// text: the parser is not described here, only named.
pub uninterp spec fn parsed(text: Seq<char>) -> Option<Tree>;

/// The trees of `items`, in order.
pub open spec fn trees_of(items: Seq<Json>) -> Seq<Tree> {
    items.map_values(|json: Json| tree_of(json))
}

/// The longest text, in bytes of UTF-8, that is given to the parser. The
/// parser keeps the place and the length of an object's key in sixteen bits
/// each.
pub const MAX_BYTES: usize = 65535;

/// The most opening brackets and braces in a text that is given to the
/// parser. The parser calls itself once for each array and object that is
/// open at a time.
pub const MAX_OPENINGS: usize = 128;

/// The most digits of an exponent in a text that is given to the parser.
/// The parser adds them up without looking whether the sum still fits.
pub const MAX_EXPONENT_DIGITS: usize = 9;

/// Where a byte of a JSON text stands: outside every string, inside a
/// string, or inside a string right behind a backslash.
#[derive(Clone, Copy, PartialEq, Eq, Structural, Debug)]
pub enum Region {
    Outside,
    Inside,
    Escaped,
}

/// Where the byte behind `byte` stands, if `byte` stands in `region`: a
/// quote opens a string and closes it, and inside a string a backslash
/// takes the byte behind it along, be it a quote or another backslash.
pub open spec fn region_after(region: Region, byte: u8) -> Region {
    match region {
        Region::Outside => if byte == 0x22 {
            Region::Inside
        } else {
            Region::Outside
        },
        Region::Inside => if byte == 0x5c {
            Region::Escaped
        } else if byte == 0x22 {
            Region::Outside
        } else {
            Region::Inside
        },
        Region::Escaped => Region::Inside,
    }
}

/// Where the byte at `place` stands in `bytes`.
pub open spec fn region_at(bytes: Seq<u8>, place: int) -> Region
    decreases place,
{
    if place <= 0 {
        Region::Outside
    } else {
        region_after(region_at(bytes, place - 1), bytes[place - 1])
    }
}

/// Whether `byte` opens an array or an object: `[` or `{`.
pub open spec fn is_opening(byte: u8) -> bool {
    byte == 0x5b || byte == 0x7b
}

/// Whether `byte` marks an exponent: `e` or `E`.
pub open spec fn is_exponent_mark(byte: u8) -> bool {
    byte == 0x65 || byte == 0x45
}

/// Whether `byte` is a sign: `+` or `-`.
pub open spec fn is_sign(byte: u8) -> bool {
    byte == 0x2b || byte == 0x2d
}

/// Whether `byte` is a decimal digit.
pub open spec fn is_digit_byte(byte: u8) -> bool {
    0x30 <= byte <= 0x39
}

/// Whether `byte` is white space that JSON allows between values: a space,
/// a line feed, a carriage return or a tab.
pub open spec fn is_json_space(byte: u8) -> bool {
    byte == 0x20 || byte == 0x0a || byte == 0x0d || byte == 0x09
}

/// How many of the first `upto` of `bytes` open an array or an object.
/// A bracket or a brace inside a string opens none.
pub open spec fn openings(bytes: Seq<u8>, upto: int) -> nat
    decreases upto,
{
    if upto <= 0 {
        0
    } else if region_at(bytes, upto - 1) is Outside && is_opening(bytes[upto - 1]) {
        openings(bytes, upto - 1) + 1
    } else {
        openings(bytes, upto - 1)
    }
}

/// How many decimal digits stand in a row in `bytes` from the place `from`
/// on.
pub open spec fn digits_from(bytes: Seq<u8>, from: int) -> nat
    decreases bytes.len() - from,
{
    if 0 <= from < bytes.len() && is_digit_byte(bytes[from]) {
        digits_from(bytes, from + 1) + 1
    } else {
        0
    }
}

/// Where the digits of an exponent begin whose mark stands at `mark`: behind
/// the mark, and behind the sign if one follows the mark.
pub open spec fn exponent_start(bytes: Seq<u8>, mark: int) -> int {
    if mark + 1 < bytes.len() && is_sign(bytes[mark + 1]) {
        mark + 2
    } else {
        mark + 1
    }
}

/// Whether the byte at `place` begins no long exponent: if it is an `e` or
/// an `E` outside every string, no more digits follow it than an exponent
/// may have.
pub open spec fn is_no_long_exponent(bytes: Seq<u8>, place: int) -> bool {
    is_exponent_mark(bytes[place]) && region_at(bytes, place) is Outside ==> digits_from(
        bytes,
        exponent_start(bytes, place),
    ) <= MAX_EXPONENT_DIGITS
}

/// Whether no `e` or `E` outside the strings of `bytes` is followed by more
/// digits than an exponent may have.
pub open spec fn exponents_are_short(bytes: Seq<u8>) -> bool {
    forall|place: int| 0 <= place < bytes.len() ==> #[trigger] is_no_long_exponent(bytes, place)
}

/// The place of the first of `bytes`, from the place `from` on, that is no
/// white space between values; the length of `bytes` if there is none.
pub open spec fn next_place(bytes: Seq<u8>, from: int) -> int
    decreases bytes.len() - from,
{
    if 0 <= from < bytes.len() && is_json_space(bytes[from]) {
        next_place(bytes, from + 1)
    } else {
        from
    }
}

/// Whether the byte at `place` is no comma before a closing brace: if it
/// is a comma outside every string, the next byte that is no white space
/// is no closing brace.
pub open spec fn is_no_last_comma(bytes: Seq<u8>, place: int) -> bool {
    bytes[place] == 0x2c && region_at(bytes, place) is Outside ==> {
        let next = next_place(bytes, place + 1);
        !(next < bytes.len() && bytes[next] == 0x7d)
    }
}

/// Whether no comma outside the strings of `bytes` has a closing brace as
/// the next byte that is no white space.
pub open spec fn commas_go_on(bytes: Seq<u8>) -> bool {
    forall|place: int| 0 <= place < bytes.len() ==> #[trigger] is_no_last_comma(bytes, place)
}

/// Whether `bytes` may be given to the parser.
pub open spec fn parser_takes_bytes(bytes: Seq<u8>) -> bool {
    &&& bytes.len() <= MAX_BYTES
    &&& openings(bytes, bytes.len() as int) <= MAX_OPENINGS
    &&& exponents_are_short(bytes)
    &&& commas_go_on(bytes)
}

/// Whether `text` may be given to the parser: it is no longer than a
/// datagram can be, it opens few arrays and objects, it writes no long
/// exponent, and it closes no object behind a comma. What stands inside a
/// string does not count: the test follows the quotes and the backslashes
/// as the parser does. It goes by single bytes all the same, so it refuses
/// some texts that are not JSON for its own reason and not for the
/// parser's.
pub open spec fn parser_takes(text: Seq<char>) -> bool {
    parser_takes_bytes(vstd::utf8::encode_utf8(text))
}

/// `Json::from_str` parses the whole of `text` as one JSON value. What it
/// returns depends on `text` alone; the contract gives that a name. The
/// parser panics on some texts: it overflows on an exponent of many digits,
/// it cuts a key of 65536 bytes or more to sixteen bits, it calls itself
/// for every level of nesting, and it loses its place behind an object
/// that ends in a comma. `requires` leaves those texts out. All of this
/// happens outside strings; inside a string the parser only looks for the
/// closing quote and reads the escapes.
pub assume_specification[ Json::from_str ](text: &str) -> (result: Result<Json, ParserError>)
    requires
        parser_takes(text@),
    ensures
        match result {
            Ok(json) => parsed(text@) == Some(tree_of(json)),
            Err(_) => parsed(text@).is_none(),
        },
;

/// `Json::as_string` hands out the text of a `Json::String`, and `None` for
/// any other value.
pub assume_specification<'a>[ Json::as_string ](json: &'a Json) -> (text: Option<&'a str>)
    ensures
        match text {
            Some(text) => tree_of(*json) == Tree::String(text@),
            None => !(tree_of(*json) is String),
        },
;

/// `Json::find` looks `key` up in a `Json::Object` and hands out the value
/// stored under it. It returns `None` for an object without that key and for
/// a value that is no object.
pub assume_specification<'a>[ Json::find ](json: &'a Json, key: &str) -> (value: Option<&'a Json>)
    ensures
        match value {
            Some(value) => tree_of(*json) matches Tree::Object(fields) && fields.contains_key(key@)
                && fields[key@] == tree_of(*value),
            None => !(tree_of(*json) matches Tree::Object(fields) && fields.contains_key(key@)),
        },
;

/// `Json::as_array` hands out the items of a `Json::Array`, and `None` for
/// any other value.
pub assume_specification<'a>[ Json::as_array ](json: &'a Json) -> (items: Option<&'a Vec<Json>>)
    ensures
        match items {
            Some(items) => tree_of(*json) == Tree::Array(trees_of(items@)),
            None => !(tree_of(*json) is Array),
        },
;

/// `Json::is_object` tells whether the value is a `Json::Object`.
pub assume_specification<'a>[ Json::is_object ](json: &'a Json) -> (yes: bool)
    ensures
        yes == (tree_of(*json) is Object),
;

/// `Json::is_f64` tells whether the value is a `Json::F64`.
pub assume_specification[ Json::is_f64 ](json: &Json) -> (yes: bool)
    ensures
        yes == (tree_of(*json) is Float),
;

/// `Json::as_u64` hands out the number of a `Json::U64`, and that of a
/// `Json::I64` which is not negative; it returns `None` for any other value.
pub assume_specification[ Json::as_u64 ](json: &Json) -> (number: Option<u64>)
    ensures
        number == match tree_of(*json) {
            Tree::I64(n) if n >= 0 => Some(n as u64),
            Tree::U64(n) => Some(n),
            _ => None,
        },
;

/// Tells whether `byte` opens an array or an object.
fn opens(byte: u8) -> (yes: bool)
    ensures
        yes == is_opening(byte),
{
    byte == 0x5b || byte == 0x7b
}

/// Tells whether `byte` marks an exponent.
fn marks_exponent(byte: u8) -> (yes: bool)
    ensures
        yes == is_exponent_mark(byte),
{
    byte == 0x65 || byte == 0x45
}

/// Tells whether `byte` is a sign.
fn signs(byte: u8) -> (yes: bool)
    ensures
        yes == is_sign(byte),
{
    byte == 0x2b || byte == 0x2d
}

/// Tells whether `byte` is a decimal digit.
fn writes_digit(byte: u8) -> (yes: bool)
    ensures
        yes == is_digit_byte(byte),
{
    0x30 <= byte && byte <= 0x39
}

/// Tells whether `byte` is white space that JSON allows between values.
fn spaces(byte: u8) -> (yes: bool)
    ensures
        yes == is_json_space(byte),
{
    byte == 0x20 || byte == 0x0a || byte == 0x0d || byte == 0x09
}

/// Counts the digits that stand in a row in `bytes` from `from` on, and
/// gives up after one more than an exponent may have.
fn count_digits(bytes: &[u8], from: usize) -> (count: usize)
    requires
        from <= bytes@.len(),
    ensures
        count <= MAX_EXPONENT_DIGITS + 1,
        count <= MAX_EXPONENT_DIGITS ==> count == digits_from(bytes@, from as int),
        count > MAX_EXPONENT_DIGITS ==> digits_from(bytes@, from as int) > MAX_EXPONENT_DIGITS,
{
    let mut count: usize = 0;
    while count <= MAX_EXPONENT_DIGITS && count < bytes.len() - from && writes_digit(
        bytes[from + count],
    )
        invariant
            from <= bytes@.len(),
            count <= MAX_EXPONENT_DIGITS + 1,
            count <= bytes@.len() - from,
            digits_from(bytes@, from as int) == count + digits_from(bytes@, from + count),
        decreases MAX_EXPONENT_DIGITS + 1 - count,
    {
        count = count + 1;
    }
    count
}

/// Finds the first of `bytes`, from the place `from` on, that is no white
/// space between values.
fn skip_spaces(bytes: &[u8], from: usize) -> (place: usize)
    requires
        from <= bytes@.len(),
    ensures
        place == next_place(bytes@, from as int),
        from <= place <= bytes@.len(),
{
    let mut place: usize = from;
    while place < bytes.len() && spaces(bytes[place])
        invariant
            from <= place <= bytes@.len(),
            next_place(bytes@, from as int) == next_place(bytes@, place as int),
        decreases bytes@.len() - place,
    {
        place = place + 1;
    }
    place
}

/// Tells where the byte behind `byte` stands.
fn step(region: Region, byte: u8) -> (next: Region)
    ensures
        next == region_after(region, byte),
{
    match region {
        Region::Outside => if byte == 0x22 {
            Region::Inside
        } else {
            Region::Outside
        },
        Region::Inside => if byte == 0x5c {
            Region::Escaped
        } else if byte == 0x22 {
            Region::Outside
        } else {
            Region::Inside
        },
        Region::Escaped => Region::Inside,
    }
}

/// Tells whether a byte stands outside every string.
fn is_outside(region: Region) -> (yes: bool)
    ensures
        yes == (region is Outside),
{
    match region {
        Region::Outside => true,
        _ => false,
    }
}

/// Tells whether `text` may be given to the parser.
pub fn parser_takes_text(text: &str) -> (yes: bool)
    ensures
        yes == parser_takes(text@),
{
    let bytes = text.as_bytes();
    if bytes.len() > MAX_BYTES {
        return false;
    }
    let mut region = Region::Outside;
    let mut opened: usize = 0;
    let mut place: usize = 0;
    while place < bytes.len()
        invariant
            place <= bytes@.len() <= MAX_BYTES,
            bytes@ == vstd::utf8::encode_utf8(text@),
            region == region_at(bytes@, place as int),
            opened == openings(bytes@, place as int),
            opened <= place,
            forall|earlier: int|
                0 <= earlier < place ==> #[trigger] is_no_long_exponent(bytes@, earlier),
            forall|earlier: int|
                0 <= earlier < place ==> #[trigger] is_no_last_comma(bytes@, earlier),
        decreases bytes@.len() - place,
    {
        let byte = bytes[place];
        if is_outside(region) {
            if byte == 0x2c {
                let next = skip_spaces(bytes, place + 1);
                if next < bytes.len() && bytes[next] == 0x7d {
                    assert(!is_no_last_comma(bytes@, place as int));
                    return false;
                }
            }
            if marks_exponent(byte) {
                let start = if place + 1 < bytes.len() && signs(bytes[place + 1]) {
                    place + 2
                } else {
                    place + 1
                };
                if count_digits(bytes, start) > MAX_EXPONENT_DIGITS {
                    assert(!is_no_long_exponent(bytes@, place as int));
                    return false;
                }
            }
            if opens(byte) {
                opened = opened + 1;
            }
        }
        assert(is_no_last_comma(bytes@, place as int));
        assert(is_no_long_exponent(bytes@, place as int));
        region = step(region, byte);
        place = place + 1;
    }
    opened <= MAX_OPENINGS
}

/// Whether the encoder writes `name` between quotes as it stands: `name`
/// holds no quote, no backslash, no character below U+0020 and no U+007F,
/// which are the characters that the encoder escapes.
pub open spec fn is_plain(name: Seq<char>) -> bool {
    forall|i: int|
        0 <= i < name.len() ==> {
            let c = #[trigger] name[i];
            c != '"' && c != '\\' && c as u32 >= 0x20 && c as u32 != 0x7f
        }
}

/// `name` between quotes.
pub open spec fn quoted(name: Seq<char>) -> Seq<char> {
    seq!['"'] + name + seq!['"']
}

/// The numbers of `fields` in decimal, with a comma between neighbours.
pub open spec fn listed(fields: Seq<usize>) -> Seq<char>
    decreases fields.len(),
{
    if fields.len() == 0 {
        Seq::empty()
    } else if fields.len() == 1 {
        decimal_text(fields[0] as nat)
    } else {
        listed(fields.drop_last()) + seq![','] + decimal_text(fields.last() as nat)
    }
}

/// The compact JSON text of an enum variant: its name between quotes where
/// it has no field, otherwise an object with the name under `variant` and
/// the fields, in order, under `fields`.
pub open spec fn variant_text(name: Seq<char>, fields: Seq<usize>) -> Seq<char> {
    if fields.len() == 0 {
        quoted(name)
    } else {
        "{\"variant\":"@ + quoted(name) + ",\"fields\":["@ + listed(fields) + "]}"@
    }
}

/// Writes one enum variant with the compact `Encoder` of
/// `rustc_serialize::json`, by the calls that the crate's derive makes for a
/// variant whose fields are all `usize`: `emit_enum_variant` with the name,
/// and inside it `emit_enum_variant_arg` with `emit_usize` for each field.
/// The derive's outermost call, `emit_enum`, only calls its closure and is
/// left out.
/// The contract states the text that these calls write into an empty
/// `String` when the name needs no escape. The encoder reports an error in
/// two cases only: when the writer does, and a `String` never does; and when
/// it is asked for a key of a map, which these calls do not ask for. So the
/// result is `Ok`.
#[verifier::external_body]
pub(crate) fn emit_variant(name: &str, index: usize, fields: &Vec<usize>) -> (result: Result<
    String,
    EncoderError,
>)
    requires
        is_plain(name@),
    ensures
        result is Ok,
        result matches Ok(text) ==> text@ == variant_text(name@, fields@),
{
    let mut text = String::new();
    let mut encoder = Encoder::new(&mut text);
    let done = rustc_serialize::Encoder::emit_enum_variant(&mut encoder, name, index, fields.len(), |e| {
        for (position, field) in fields.iter().enumerate() {
            rustc_serialize::Encoder::emit_enum_variant_arg(e, position, |e| {
                rustc_serialize::Encoder::emit_usize(e, *field)
            })?;
        }
        Ok(())
    });
    done.map(|_| text)
}

} // verus!
