//! The three encodings that every closed enumeration of this crate shares: the
//! JSON text form, the relational-storage text form and the wire form.
use vstd::prelude::*;
use vstd::string::StringSliceAdditionalSpecFns;
use crate::json::{
    ascii_bytes, ascii_chars, is_plain_bytes, is_plain_text, json_string_from_slice,
    json_string_literal, json_string_value, quoted, quoted_bytes,
};
use crate::wire::{postcard_decode_u32, postcard_encode_u32, postcard_u32_value};

verus! {

/// The most bytes that a closed enumeration takes on the wire: its variant
/// index as a varint, which for fewer than 128 variants is one byte.
pub const VARIANT_WIRE_MAX_SIZE: usize = 1;

/// A closed enumeration with no payload: each variant has a name, used by the
/// text forms, and an index, used by the wire form.
pub trait Variant: Sized {
    /// The variant's name, lower case with underscores.
    spec fn spec_name(&self) -> Seq<char>;

    /// The variant's position in declaration order.
    spec fn spec_index(&self) -> u32;

    /// The variant of a name, if any has it.
    spec fn spec_from_name(name: Seq<char>) -> Option<Self>;

    /// The variant of an index, if any has it.
    spec fn spec_from_index(index: u32) -> Option<Self>;

    /// Each variant's name is plain text that leads back to it, and its index
    /// fits one varint byte and leads back to it.
    proof fn lemma_variant(&self)
        ensures
            is_plain_text(self.spec_name()),
            Self::spec_from_name(self.spec_name()) == Some(*self),
            self.spec_index() < 128,
            Self::spec_from_index(self.spec_index()) == Some(*self),
    ;

    /// The variant's name.
    fn name(&self) -> (r: &'static str)
        ensures
            r@ == self.spec_name(),
    ;

    /// The variant's index.
    fn index(&self) -> (r: u32)
        ensures
            r == self.spec_index(),
    ;

    /// The variant with this name, if any.
    fn from_name(name: &str) -> (r: Option<Self>)
        ensures
            r == Self::spec_from_name(name@),
    ;

    /// The variant with this index, if any.
    fn from_index(index: u32) -> (r: Option<Self>)
        ensures
            r == Self::spec_from_index(index),
    ;
}

/// A value as a relational store hands it back from one column.
pub enum ColumnValue {
    Null,
    Integer(i64),
    /// A REAL value, held as its IEEE 754 bit pattern.
    Real(u64),
    Text(Vec<u8>),
    Blob(Vec<u8>),
}

/// Why text did not decode to a variant.
pub enum DecodeError {
    /// The text is not a JSON string.
    Json(serde_json::Error),
    /// The text is a JSON string that names no variant; it holds that name.
    UnknownVariant(String),
}

/// Why a stored column did not decode to a variant.
pub enum ColumnError {
    /// The column does not hold text.
    InvalidType,
    /// The column holds text that does not decode.
    Deserialize(DecodeError),
}

/// Why wire bytes did not decode to a variant.
pub enum WireError {
    /// The bytes do not begin with a varint.
    Postcard(postcard::Error),
    /// The varint is no variant's index; it holds that index.
    UnknownVariant(u32),
}

/// The JSON text form of a variant: its name between quotation marks.
pub open spec fn json_text<T: Variant>(v: T) -> Seq<char> {
    quoted(v.spec_name())
}

/// The storage text form of a variant: its name, as bytes.
pub open spec fn storage_text<T: Variant>(v: T) -> Seq<u8> {
    ascii_bytes(v.spec_name())
}

/// What decoding the JSON document `b` gives, as the outcome's shape: the
/// variant, or whether the text failed as JSON (`Err(true)`) or as a name
/// (`Err(false)`).
pub open spec fn json_outcome<T: Variant>(b: Seq<u8>) -> Result<T, bool> {
    match json_string_value(b) {
        None => Err(true),
        Some(s) => match T::spec_from_name(s) {
            Some(v) => Ok(v),
            None => Err(false),
        },
    }
}

/// The shape of a decoding result, as `json_outcome` gives it.
pub open spec fn decode_shape<T>(r: Result<T, DecodeError>) -> Result<T, bool> {
    match r {
        Ok(v) => Ok(v),
        Err(DecodeError::Json(_)) => Err(true),
        Err(DecodeError::UnknownVariant(_)) => Err(false),
    }
}

/// The variant that plain stored text names, if any.
pub open spec fn plain_storage_variant<T: Variant>(t: Seq<u8>) -> Option<T> {
    T::spec_from_name(ascii_chars(t))
}

/// The variant that a plain JSON text form names, if any.
pub open spec fn plain_json_variant<T: Variant>(s: Seq<char>) -> Option<T> {
    if s.len() >= 2 && s[0] == '"' && s[s.len() - 1] == '"' && is_plain_text(
        s.subrange(1, s.len() - 1),
    ) {
        T::spec_from_name(s.subrange(1, s.len() - 1))
    } else {
        None
    }
}

/// Plain text is ASCII, and its bytes are its characters.
proof fn lemma_plain_is_ascii(s: Seq<char>)
    requires
        is_plain_text(s),
    ensures
        vstd::utf8::is_ascii_chars(s),
        is_plain_bytes(ascii_bytes(s)),
        ascii_chars(ascii_bytes(s)) == s,
{
    assert(ascii_chars(ascii_bytes(s)) =~= s);
}



/// Whether two strings hold the same characters.
pub(crate) fn same_text(a: &str, b: &str) -> (r: bool)
    ensures
        r == (a@ == b@),
{
    let n = a.unicode_len();
    if n != b.unicode_len() {
        return false;
    }
    let mut i: usize = 0;
    while i < n
        invariant
            n == a@.len(),
            n == b@.len(),
            i <= n,
            a@.subrange(0, i as int) == b@.subrange(0, i as int),
        decreases n - i,
    {
        if a.get_char(i) != b.get_char(i) {
            proof {
                assert(a@[i as int] != b@[i as int]);
            }
            return false;
        }
        proof {
            assert(a@.subrange(0, i + 1) =~= a@.subrange(0, i as int).push(a@[i as int]));
            assert(b@.subrange(0, i + 1) =~= b@.subrange(0, i as int).push(b@[i as int]));
        }
        i = i + 1;
    }
    proof {
        assert(a@ =~= a@.subrange(0, n as int));
        assert(b@ =~= b@.subrange(0, n as int));
    }
    true
}

/// The JSON text form of a variant: its name between quotation marks.
pub fn to_json<T: Variant>(v: &T) -> (r: String)
    ensures
        r@ == json_text(*v),
{
    proof {
        v.lemma_variant();
    }
    match json_string_literal(v.name()) {
        Ok(s) => s,
        Err(_) => {
            proof {
                assert(false);
            }
            String::new()
        },
    }
}

/// Decodes the JSON text form of a variant: a JSON string that holds one of
/// the variant names.
pub fn from_json<T: Variant>(text: &str) -> (r: Result<T, DecodeError>)
    ensures
        decode_shape(r) == json_outcome::<T>(text.spec_bytes()),
        plain_json_variant::<T>(text@) is Some ==> r == Ok::<T, DecodeError>(
            plain_json_variant::<T>(text@)->0,
        ),
        text@.len() >= 2 && text@[0] == '"' && text@[text@.len() - 1] == '"' && is_plain_text(
            text@.subrange(1, text@.len() - 1),
        ) && plain_json_variant::<T>(text@) is None
            ==> r is Err && r->Err_0 is UnknownVariant,
{
    let b = text.as_bytes();
    proof {
        let s = text@;
        if s.len() >= 2 && s[0] == '"' && s[s.len() - 1] == '"' && is_plain_text(
            s.subrange(1, s.len() - 1),
        ) {
            assert(vstd::utf8::is_ascii_chars(s)) by {
                assert forall|i: int| 0 <= i < s.len() implies '\0' <= #[trigger] s[i] <= '\u{7f}' by {
                    if 0 < i < s.len() - 1 {
                        assert(s[i] == s.subrange(1, s.len() - 1)[i - 1]);
                    }
                }
            }
            vstd::string::is_ascii_spec_bytes(text);
            assert(b@.subrange(1, b@.len() - 1) =~= ascii_bytes(s.subrange(1, s.len() - 1)));
            lemma_plain_is_ascii(s.subrange(1, s.len() - 1));
        }
    }
    decode_json_bytes(b)
}

fn decode_json_bytes<T: Variant>(b: &[u8]) -> (r: Result<T, DecodeError>)
    ensures
        decode_shape(r) == json_outcome::<T>(b@),
        b@.len() >= 2 && b@[0] == 34u8 && b@[b@.len() - 1] == 34u8 && is_plain_bytes(
            b@.subrange(1, b@.len() - 1),
        ) ==> decode_shape(r) == match plain_storage_variant::<T>(b@.subrange(1, b@.len() - 1)) {
            Some(v) => Ok(v),
            None => Err::<T, bool>(false),
        },
{
    match json_string_from_slice(b) {
        Ok(s) => match T::from_name(s.as_str()) {
            Some(v) => Ok(v),
            None => Err(DecodeError::UnknownVariant(s)),
        },
        Err(e) => Err(DecodeError::Json(e)),
    }
}

/// The storage form of a variant: its JSON text form with the quotation marks
/// taken off, as one text column.
pub fn to_sql<T: Variant>(v: &T) -> (r: ColumnValue)
    ensures
        r matches ColumnValue::Text(t) && t@ == storage_text(*v),
{
    let json = to_json(v);
    proof {
        v.lemma_variant();
        lemma_plain_is_ascii(v.spec_name());
        assert(vstd::utf8::is_ascii_chars(json@)) by {
            assert forall|i: int| 0 <= i < json@.len() implies '\0' <= #[trigger] json@[i] <= '\u{7f}' by {
                if 0 < i < json@.len() - 1 {
                    assert(json@[i] == v.spec_name()[i - 1]);
                }
            }
        }
    }
    let inner = json.as_str().substring_ascii(1, json.as_str().unicode_len() - 1);
    let bytes = inner.as_bytes_vec();
    proof {
        vstd::string::is_ascii_spec_bytes(inner);
        assert(inner@ =~= v.spec_name());
        assert(bytes@ =~= storage_text(*v));
    }
    ColumnValue::Text(bytes)
}

/// Decodes the storage form of a variant: the column must hold text, which is
/// put back between quotation marks and decoded as JSON text.
pub fn column_result<T: Variant>(value: &ColumnValue) -> (r: Result<T, ColumnError>)
    ensures
        !(value is Text) ==> r is Err && r->Err_0 is InvalidType,
        value matches ColumnValue::Text(t) ==> match r {
            Ok(v) => json_outcome::<T>(quoted_bytes(t@)) == Ok::<T, bool>(v),
            Err(ColumnError::Deserialize(e)) => json_outcome::<T>(quoted_bytes(t@)) == decode_shape(
                Err::<T, DecodeError>(e),
            ),
            Err(ColumnError::InvalidType) => false,
        },
        value matches ColumnValue::Text(t) ==> (is_plain_bytes(t@) ==> match r {
            Ok(v) => plain_storage_variant::<T>(t@) == Some(v),
            Err(e) => plain_storage_variant::<T>(t@) is None && e matches ColumnError::Deserialize(
                DecodeError::UnknownVariant(_),
            ),
        }),
{
    match value {
        ColumnValue::Text(text) => {
            let mut json: Vec<u8> = Vec::new();
            json.push(34u8);
            let mut i: usize = 0;
            while i < text.len()
                invariant
                    i <= text@.len(),
                    json@ == seq![34u8] + text@.subrange(0, i as int),
                decreases text@.len() - i,
            {
                json.push(text[i]);
                i = i + 1;
                proof {
                    assert(json@ =~= seq![34u8] + text@.subrange(0, i as int));
                }
            }
            json.push(34u8);
            proof {
                assert(json@ =~= quoted_bytes(text@));
                assert(json@.subrange(1, json@.len() - 1) =~= text@);
            }
            match decode_json_bytes(json.as_slice()) {
                Ok(v) => Ok(v),
                Err(e) => Err(ColumnError::Deserialize(e)),
            }
        },
        _ => Err(ColumnError::InvalidType),
    }
}

/// The wire form of a variant: its index as a postcard varint.
pub fn to_wire<T: Variant>(v: &T) -> (r: Vec<u8>)
    ensures
        r@ == seq![v.spec_index() as u8],
        r@.len() <= VARIANT_WIRE_MAX_SIZE,
{
    proof {
        v.lemma_variant();
    }
    match postcard_encode_u32(v.index()) {
        Ok(b) => b,
        Err(_) => {
            proof {
                assert(false);
            }
            Vec::new()
        },
    }
}

/// Decodes a variant from the front of wire bytes.
pub fn from_wire<T: Variant>(b: &[u8]) -> (r: Result<T, WireError>)
    ensures
        match postcard_u32_value(b@) {
            None => r is Err && r->Err_0 is Postcard,
            Some(i) => match T::spec_from_index(i) {
                Some(v) => r == Ok::<T, WireError>(v),
                None => r == Err::<T, WireError>(WireError::UnknownVariant(i)),
            },
        },
        b@.len() == 0 ==> r is Err && r->Err_0 is Postcard,
        b@.len() > 0 && b@[0] < 128 ==> match T::spec_from_index(b@[0] as u32) {
            Some(v) => r == Ok::<T, WireError>(v),
            None => r == Err::<T, WireError>(WireError::UnknownVariant(b@[0] as u32)),
        },
{
    match postcard_decode_u32(b) {
        Ok(i) => match T::from_index(i) {
            Some(v) => Ok(v),
            None => Err(WireError::UnknownVariant(i)),
        },
        Err(e) => Err(WireError::Postcard(e)),
    }
}

/// Encoding a variant in its JSON text form and decoding that text gives the
/// variant back.
pub proof fn lemma_json_round_trip<T: Variant>(v: T)
    ensures
        plain_json_variant::<T>(json_text(v)) == Some(v),
{
    v.lemma_variant();
    let s = json_text(v);
    assert(s.subrange(1, s.len() - 1) =~= v.spec_name());
}

/// Storing a variant and reading the stored text back gives the variant back.
pub proof fn lemma_storage_round_trip<T: Variant>(v: T)
    ensures
        is_plain_bytes(storage_text(v)),
        plain_storage_variant::<T>(storage_text(v)) == Some(v),
{
    v.lemma_variant();
    lemma_plain_is_ascii(v.spec_name());
}

/// Encoding a variant on the wire and decoding its byte gives the variant back.
pub proof fn lemma_wire_round_trip<T: Variant>(v: T)
    ensures
        (v.spec_index() as u8) < 128,
        T::spec_from_index((v.spec_index() as u8) as u32) == Some(v),
{
    v.lemma_variant();
}

} // verus!
