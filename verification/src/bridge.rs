//! The peripheral that runs behind a foreign boundary: the identifiers as the
//! null-terminated text that the boundary takes, and the single slot through
//! which payloads coming back over it find their handler.

use vstd::prelude::*;
use vstd::slice::slice_to_vec;
use vstd::string::StringSliceAdditionalSpecFns;
use vstd::utf8::encode_utf8;
use vstd::utf8::is_ascii_chars;
use vstd::utf8::is_ascii_chars_encode_utf8;
use crate::descriptor::ServiceDescriptor;

verus! {

/// The lower-case hexadecimal digit of a value below sixteen.
pub open spec fn hex_digit(value: int) -> char {
    if value == 0 {
        '0'
    } else if value == 1 {
        '1'
    } else if value == 2 {
        '2'
    } else if value == 3 {
        '3'
    } else if value == 4 {
        '4'
    } else if value == 5 {
        '5'
    } else if value == 6 {
        '6'
    } else if value == 7 {
        '7'
    } else if value == 8 {
        '8'
    } else if value == 9 {
        '9'
    } else if value == 10 {
        'a'
    } else if value == 11 {
        'b'
    } else if value == 12 {
        'c'
    } else if value == 13 {
        'd'
    } else if value == 14 {
        'e'
    } else {
        'f'
    }
}

/// Sixteen to the power of `exponent`.
pub open spec fn pow16(exponent: nat) -> int
    decreases exponent,
{
    if exponent == 0 {
        1
    } else {
        16 * pow16((exponent - 1) as nat)
    }
}

/// The hexadecimal digit of `value` at `index`, counted from the most
/// significant of its thirty-two digits.
pub open spec fn digit_at(value: u128, index: int) -> int {
    (value as int / pow16((31 - index) as nat)) % 16
}

/// The number of hyphens that stand before position `position` of a
/// hyphenated identifier.
pub open spec fn hyphens_before(position: int) -> int {
    if position < 8 {
        0
    } else if position < 13 {
        1
    } else if position < 18 {
        2
    } else if position < 23 {
        3
    } else {
        4
    }
}

/// A 128-bit identifier as hyphenated text: its thirty-two lower-case
/// hexadecimal digits, most significant first, in groups of 8, 4, 4, 4 and 12
/// with a hyphen between the groups.
pub open spec fn hyphenated(value: u128) -> Seq<char> {
    Seq::new(
        36,
        |position: int|
            if position == 8 || position == 13 || position == 18 || position == 23 {
                '-'
            } else {
                hex_digit(digit_at(value, position - hyphens_before(position)))
            },
    )
}

/// The bytes of a hyphenated identifier: one byte for each character.
pub open spec fn hyphenated_bytes(value: u128) -> Seq<u8> {
    Seq::new(36, |position: int| hyphenated(value)[position] as u8)
}

/// Whether a zero byte occurs in `bytes`.
pub open spec fn has_nul(bytes: Seq<u8>) -> bool {
    exists|i: int| 0 <= i < bytes.len() && bytes[i] == 0u8
}

/// Whether `position` is where the first zero byte of `bytes` stands.
pub open spec fn is_first_nul(bytes: Seq<u8>, position: int) -> bool {
    &&& 0 <= position < bytes.len()
    &&& bytes[position] == 0u8
    &&& forall|i: int| 0 <= i < position ==> bytes[i] != 0u8
}

/// The display name cannot cross the boundary: a zero byte stands in it, the
/// first one at `position`.
#[derive(Clone, Copy, Debug, PartialEq, Eq, Structural)]
pub struct MarshalError {
    pub position: usize,
}

/// What the native start routine is handed: each identifier as
/// null-terminated text.
#[derive(Clone, Debug, PartialEq, Eq)]
pub struct StartArguments {
    pub name: Vec<u8>,
    pub service_uuid: Vec<u8>,
    pub characteristic_uuid: Vec<u8>,
}

/// The hyphenated text of a 128-bit identifier, from `uuid::Uuid::from_u128`
/// and the `to_string` of `uuid::Uuid`. The contract claims what the crate's
/// formatting code does: `to_string` writes the lower-case hyphenated form,
/// whose digits follow the big-endian bytes of the value.
#[verifier::external_body]
fn uuid_text(value: u128) -> (text: String)
    ensures
        text@ == hyphenated(value),
{
    uuid::Uuid::from_u128(value).to_string()
}

/// Hyphenated text is plain ASCII without a zero byte, so its bytes are its
/// characters one for one and it can always be null-terminated.
pub proof fn lemma_hyphenated_is_ascii(value: u128)
    ensures
        is_ascii_chars(hyphenated(value)),
        encode_utf8(hyphenated(value)) == hyphenated_bytes(value),
        !has_nul(hyphenated_bytes(value)),
{
    let text = hyphenated(value);
    assert forall|i: int| 0 <= i < text.len() implies '\0' < #[trigger] text[i] <= '\u{7f}' by {
        let digit = digit_at(value, i - hyphens_before(i));
        assert(0 <= digit < 16);
    }
    is_ascii_chars_encode_utf8(text);
    assert(encode_utf8(text) =~= hyphenated_bytes(value));
    assert forall|i: int| 0 <= i < 36 implies #[trigger] hyphenated_bytes(value)[i] != 0u8 by {
        assert('\0' < text[i] <= '\u{7f}');
    }
}

/// A 128-bit identifier as null-terminated hyphenated text.
pub fn marshal_uuid(value: u128) -> (bytes: Vec<u8>)
    ensures
        bytes@ == hyphenated_bytes(value).push(0u8),
{
    let text = uuid_text(value);
    proof {
        lemma_hyphenated_is_ascii(value);
    }
    let mut bytes = slice_to_vec(text.as_str().as_bytes());
    bytes.push(0u8);
    bytes
}

/// Text as the null-terminated bytes that a foreign boundary takes: the bytes
/// of the text followed by one zero byte. Text that holds a zero byte itself
/// cannot be written so, and the position of its first zero byte is returned
/// instead.
pub fn null_terminated(text: &str) -> (marshaled: Result<Vec<u8>, usize>)
    ensures
        marshaled is Ok <==> !has_nul(encode_utf8(text@)),
        marshaled is Ok ==> marshaled->Ok_0@ == encode_utf8(text@).push(0u8),
        marshaled is Err ==> is_first_nul(encode_utf8(text@), marshaled->Err_0 as int),
{
    let source = text.as_bytes();
    let mut i: usize = 0;
    while i < source.len()
        invariant
            i <= source.len(),
            source@ == encode_utf8(text@),
            forall|j: int| 0 <= j < i ==> source@[j] != 0u8,
        decreases source.len() - i,
    {
        if source[i] == 0u8 {
            return Err(i);
        }
        i += 1;
    }
    let mut bytes = slice_to_vec(source);
    bytes.push(0u8);
    Ok(bytes)
}

/// The arguments of the native start routine for a service: the display name
/// and the two identifiers, the identifiers as hyphenated text, each
/// null-terminated. The start is refused, before anything is handed over,
/// exactly when the display name holds a zero byte.
pub fn marshal(descriptor: &ServiceDescriptor) -> (marshaled: Result<StartArguments, MarshalError>)
    ensures
        marshaled is Ok <==> !has_nul(encode_utf8(descriptor.display_name@)),
        marshaled is Ok ==> {
            &&& marshaled->Ok_0.name@ == encode_utf8(descriptor.display_name@).push(0u8)
            &&& marshaled->Ok_0.service_uuid@ == hyphenated_bytes(descriptor.service_uuid).push(
                0u8,
            )
            &&& marshaled->Ok_0.characteristic_uuid@ == hyphenated_bytes(
                descriptor.characteristic_uuid,
            ).push(0u8)
        },
        marshaled is Err ==> is_first_nul(
            encode_utf8(descriptor.display_name@),
            marshaled->Err_0.position as int,
        ),
{
    match null_terminated(descriptor.display_name.as_str()) {
        Ok(name) => {
            let service_uuid = marshal_uuid(descriptor.service_uuid);
            let characteristic_uuid = marshal_uuid(descriptor.characteristic_uuid);
            Ok(StartArguments { name, service_uuid, characteristic_uuid })
        },
        Err(position) => Err(MarshalError { position }),
    }
}

/// The one place where the handler of incoming payloads is kept, for the
/// function on the far side of the boundary to find it. It holds at most one
/// handler: installing another displaces the one before.
pub struct CallbackSlot<T> {
    installed: Option<T>,
}

impl<T> View for CallbackSlot<T> {
    type V = Option<T>;

    closed spec fn view(&self) -> Option<T> {
        self.installed
    }
}

impl<T> CallbackSlot<T> {
    /// An empty slot.
    pub fn new() -> (slot: CallbackSlot<T>)
        ensures
            slot@ is None,
    {
        CallbackSlot { installed: None }
    }

    /// Puts `callback` into the slot and hands back the handler it displaces,
    /// if one was installed.
    pub fn install(&mut self, callback: T) -> (displaced: Option<T>)
        ensures
            final(self)@ == Some(callback),
            displaced == old(self)@,
    {
        let mut displaced = Some(callback);
        std::mem::swap(&mut self.installed, &mut displaced);
        displaced
    }

    /// The installed handler, if there is one.
    pub fn installed(&self) -> (callback: Option<&T>)
        ensures
            callback is Some <==> self@ is Some,
            callback is Some ==> Some(*callback->0) == self@,
    {
        self.installed.as_ref()
    }

    /// The handler that an incoming payload goes to. `slot` is the slot as
    /// the lock gave it out, or `None` where the lock could not be had. The
    /// payload is dropped, with `None` for an answer, where the lock could not
    /// be had or the slot is empty.
    pub fn receiver(slot: Option<&CallbackSlot<T>>) -> (callback: Option<&T>)
        ensures
            callback is Some <==> slot is Some && slot->0@ is Some,
            callback is Some ==> Some(*callback->0) == slot->0@,
    {
        match slot {
            Some(held) => held.installed(),
            None => None,
        }
    }
    /// Makes a start ready: writes the identifiers as the native start
    /// routine takes them and installs `callback`, so that the handler is in
    /// place before the native side is started with the arguments handed
    /// back. Where the display name cannot be written, the start is refused
    /// and the slot stays as it was.
    pub fn prepare_start(&mut self, descriptor: &ServiceDescriptor, callback: T) -> (prepared:
        Result<StartArguments, MarshalError>)
        ensures
            prepared is Ok <==> !has_nul(encode_utf8(descriptor.display_name@)),
            prepared is Ok ==> {
                &&& final(self)@ == Some(callback)
                &&& prepared->Ok_0.name@ == encode_utf8(descriptor.display_name@).push(0u8)
                &&& prepared->Ok_0.service_uuid@ == hyphenated_bytes(
                    descriptor.service_uuid,
                ).push(0u8)
                &&& prepared->Ok_0.characteristic_uuid@ == hyphenated_bytes(
                    descriptor.characteristic_uuid,
                ).push(0u8)
            },
            prepared is Err ==> {
                &&& final(self)@ == old(self)@
                &&& is_first_nul(
                    encode_utf8(descriptor.display_name@),
                    prepared->Err_0.position as int,
                )
            },
    {
        match marshal(descriptor) {
            Ok(arguments) => {
                self.install(callback);
                Ok(arguments)
            },
            Err(error) => Err(error),
        }
    }
}

} // verus!
