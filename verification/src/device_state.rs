//! Device state: the timestamped wrapper, and the names under which a switch bank
//! reports the state of each of its switches (`"GetSwitch2"`, `"GetSwitchValue0"`,
//! `"StateChangeComplete1"`).

use vstd::prelude::*;
use crate::text::{chars_of, dec_digits, push_decimal, same_text};

verus! {

/// The properties a switch bank reports for each of its switches.
#[derive(Debug, Clone, Copy, PartialEq, Eq, Structural)]
pub enum SwitchField {
    /// Result of `GetSwitch`.
    GetSwitch,
    /// Result of `GetSwitchValue`.
    GetSwitchValue,
    /// Result of `StateChangeComplete`.
    StateChangeComplete,
}

impl SwitchField {
    /// The name of the property.
    pub open spec fn spec_name(self) -> Seq<char> {
        match self {
            SwitchField::GetSwitch => "GetSwitch"@,
            SwitchField::GetSwitchValue => "GetSwitchValue"@,
            SwitchField::StateChangeComplete => "StateChangeComplete"@,
        }
    }

    /// The name of the property.
    pub fn name(self) -> (r: &'static str)
        ensures
            r@ == self.spec_name(),
    {
        match self {
            SwitchField::GetSwitch => "GetSwitch",
            SwitchField::GetSwitchValue => "GetSwitchValue",
            SwitchField::StateChangeComplete => "StateChangeComplete",
        }
    }
}

/// Why a name in a switch bank's device state could not be read.
#[derive(Debug)]
pub enum SwitchKeyError {
    /// The name holds no digit, so no switch number.
    MissingIndex,
    /// The digits and what follows them do not form a switch number that fits in `usize`.
    InvalidIndex,
    /// The part before the switch number names no known property; it is handed back.
    UnknownField(String),
}

/// The content of a [`SwitchKeyError`].
pub enum KeyFault {
    /// See [`SwitchKeyError::MissingIndex`].
    MissingIndex,
    /// See [`SwitchKeyError::InvalidIndex`].
    InvalidIndex,
    /// See [`SwitchKeyError::UnknownField`].
    UnknownField(Seq<char>),
}

impl View for SwitchKeyError {
    type V = KeyFault;

    open spec fn view(&self) -> KeyFault {
        match self {
            SwitchKeyError::MissingIndex => KeyFault::MissingIndex,
            SwitchKeyError::InvalidIndex => KeyFault::InvalidIndex,
            SwitchKeyError::UnknownField(p) => KeyFault::UnknownField(p@),
        }
    }
}

/// Whether `c` is an ASCII decimal digit.
pub open spec fn is_digit(c: char) -> bool {
    '0' <= c && c <= '9'
}

/// The value of a decimal digit.
pub open spec fn digit_value(c: char) -> nat {
    (c as nat - '0' as nat) as nat
}

/// The value of a string of decimal digits (leading zeros allowed).
pub open spec fn digits_value(s: Seq<char>) -> nat
    decreases s.len(),
{
    if s.len() == 0 {
        0
    } else {
        digits_value(s.drop_last()) * 10 + digit_value(s.last())
    }
}

/// The position of the first ASCII digit of `s`, if any.
pub open spec fn first_digit(s: Seq<char>) -> Option<int> {
    if exists|i: int| 0 <= i < s.len() && is_digit(s[i]) {
        Some(choose|i: int| 0 <= i < s.len() && is_digit(s[i]) && forall|j: int| 0 <= j < i ==> !is_digit(s[j]))
    } else {
        None
    }
}

/// The property that `name` names, if any.
pub open spec fn field_named(name: Seq<char>) -> Option<SwitchField> {
    if name == "GetSwitch"@ {
        Some(SwitchField::GetSwitch)
    } else if name == "GetSwitchValue"@ {
        Some(SwitchField::GetSwitchValue)
    } else if name == "StateChangeComplete"@ {
        Some(SwitchField::StateChangeComplete)
    } else {
        None
    }
}

/// What a name in a switch bank's device state says: the property and the switch number,
/// or why it says nothing. The switch number starts at the first digit and runs to the
/// end of the name.
pub open spec fn spec_parse_switch_key(name: Seq<char>) -> Result<(SwitchField, nat), KeyFault> {
    match first_digit(name) {
        None => Err(KeyFault::MissingIndex),
        Some(i) => {
            let digits = name.subrange(i, name.len() as int);
            if !(forall|k: int| 0 <= k < digits.len() ==> is_digit(#[trigger] digits[k]))
                || digits_value(digits) > usize::MAX {
                Err(KeyFault::InvalidIndex)
            } else {
                match field_named(name.subrange(0, i)) {
                    Some(f) => Ok((f, digits_value(digits))),
                    None => Err(KeyFault::UnknownField(name.subrange(0, i))),
                }
            }
        },
    }
}

fn prefix_equals(chars: &Vec<char>, end: usize, text: &str) -> (r: bool)
    requires
        end <= chars@.len(),
    ensures
        r == (chars@.subrange(0, end as int) == text@),
{
    let t = chars_of(text);
    if t.len() != end {
        return false;
    }
    let mut i: usize = 0;
    while i < end
        invariant
            t@ == text@,
            t@.len() == end,
            end <= chars@.len(),
            i <= end,
            forall|j: int| 0 <= j < i ==> chars@[j] == t@[j],
        decreases end - i,
    {
        if chars[i] != t[i] {
            assert(chars@.subrange(0, end as int)[i as int] != text@[i as int]);
            return false;
        }
        i = i + 1;
    }
    assert(chars@.subrange(0, end as int) =~= text@);
    true
}

proof fn lemma_digits_value_push(s: Seq<char>, c: char)
    ensures
        digits_value(s.push(c)) == digits_value(s) * 10 + digit_value(c),
{
    assert(s.push(c).drop_last() =~= s);
}

/// Reads a name in a switch bank's device state: the property before the first digit and
/// the switch number from there to the end.
pub fn parse_switch_key(name: &str) -> (r: Result<(SwitchField, usize), SwitchKeyError>)
    ensures
        match spec_parse_switch_key(name@) {
            Ok((f, n)) => r matches Ok((g, m)) && g == f && m == n,
            Err(fault) => r matches Err(e) && e@ == fault,
        },
{
    let chars = chars_of(name);
    let len = chars.len();
    let mut start: usize = 0;
    while start < len && !('0' <= chars[start] && chars[start] <= '9')
        invariant
            chars@ == name@,
            len == chars@.len(),
            start <= len,
            forall|j: int| 0 <= j < start ==> !is_digit(chars@[j]),
        decreases len - start,
    {
        start = start + 1;
    }
    if start == len {
        assert(!exists|i: int| 0 <= i < name@.len() && is_digit(name@[i]));
        return Err(SwitchKeyError::MissingIndex);
    }
    proof {
        assert(is_digit(name@[start as int]));
        let i = first_digit(name@)->0;
        assert(0 <= i < name@.len() && is_digit(name@[i]) && forall|j: int| 0 <= j < i ==> !is_digit(name@[j]));
        if i < start {
            assert(!is_digit(chars@[i]));
        }
        if i > start {
            assert(!is_digit(name@[start as int]));
        }
        assert(i == start);
    }
    let ghost digits = name@.subrange(start as int, name@.len() as int);
    let value = match parse_digits(&chars, start) {
        Some(v) => v,
        None => {
            return Err(SwitchKeyError::InvalidIndex);
        },
    };
    if prefix_equals(&chars, start, "GetSwitch") {
        Ok((SwitchField::GetSwitch, value))
    } else if prefix_equals(&chars, start, "GetSwitchValue") {
        Ok((SwitchField::GetSwitchValue, value))
    } else if prefix_equals(&chars, start, "StateChangeComplete") {
        Ok((SwitchField::StateChangeComplete, value))
    } else {
        let mut prefix = String::new();
        let mut j: usize = 0;
        while j < start
            invariant
                chars@ == name@,
                start <= chars@.len(),
                j <= start,
                prefix@ == chars@.subrange(0, j as int),
            decreases start - j,
        {
            crate::text::push_char(&mut prefix, chars[j]);
            assert(chars@.subrange(0, j + 1) =~= chars@.subrange(0, j as int).push(chars@[j as int]));
            j = j + 1;
        }
        Err(SwitchKeyError::UnknownField(prefix))
    }
}

fn parse_digits(chars: &Vec<char>, start: usize) -> (r: Option<usize>)
    requires
        start <= chars@.len(),
    ensures
        ({
            let digits = chars@.subrange(start as int, chars@.len() as int);
            &&& r is Some <==> (forall|k: int| 0 <= k < digits.len() ==> is_digit(#[trigger] digits[k]))
                && digits_value(digits) <= usize::MAX
            &&& r matches Some(v) ==> v == digits_value(digits)
        }),
{
    let ghost digits = chars@.subrange(start as int, chars@.len() as int);
    let len = chars.len();
    let mut value: usize = 0;
    let mut k: usize = start;
    while k < len
        invariant
            len == chars@.len(),
            start <= k <= len,
            digits == chars@.subrange(start as int, chars@.len() as int),
            forall|j: int| 0 <= j < k - start ==> is_digit(#[trigger] digits[j]),
            value == digits_value(digits.subrange(0, k - start)),
        decreases len - k,
    {
        let c = chars[k];
        proof {
            assert(digits[k - start] == c);
            assert(digits.subrange(0, k + 1 - start) =~= digits.subrange(0, k - start).push(c));
            lemma_digits_value_push(digits.subrange(0, k - start), c);
        }
        if !('0' <= c && c <= '9') {
            assert(!is_digit(digits[k - start]));
            return None;
        }
        let d: usize = (c as u32 - '0' as u32) as usize;
        assert(d == digit_value(c));
        let next = match value.checked_mul(10) {
            Some(v10) => v10.checked_add(d),
            None => None,
        };
        match next {
            Some(v) => {
                value = v;
            },
            None => {
                proof {
                    lemma_digits_value_grows(digits, k + 1 - start);
                }
                return None;
            },
        }
        k = k + 1;
    }
    assert(digits.subrange(0, len - start) =~= digits);
    Some(value)
}

proof fn lemma_digits_value_grows(digits: Seq<char>, n: int)
    requires
        0 < n <= digits.len(),
    ensures
        digits_value(digits.subrange(0, n)) <= digits_value(digits),
    decreases digits.len() - n,
{
    if n < digits.len() {
        lemma_digits_value_grows(digits, n + 1);
        assert(digits.subrange(0, n + 1).drop_last() =~= digits.subrange(0, n));
    } else {
        assert(digits.subrange(0, n) =~= digits);
    }
}

/// The name under which a switch bank reports property `field` of switch `index`.
pub open spec fn spec_switch_key(field: SwitchField, index: nat) -> Seq<char> {
    field.spec_name() + dec_digits(index)
}

/// The name under which a switch bank reports property `field` of switch `index`.
pub fn switch_key(field: SwitchField, index: usize) -> (r: String)
    ensures
        r@ == spec_switch_key(field, index as nat),
{
    let mut out = field.name().to_owned();
    push_decimal(&mut out, index);
    out
}

proof fn lemma_dec_digits(n: nat)
    ensures
        dec_digits(n).len() >= 1,
        forall|k: int| 0 <= k < dec_digits(n).len() ==> is_digit(#[trigger] dec_digits(n)[k]),
        digits_value(dec_digits(n)) == n,
    decreases n,
{
    if n >= 10 {
        lemma_dec_digits(n / 10);
        let s = dec_digits(n / 10);
        let c = (48 + n % 10) as char;
        assert(c as nat == 48 + n % 10);
        assert(digit_value(c) == n % 10);
        assert(dec_digits(n) == s.push(c));
        lemma_digits_value_push(s, c);
        assert forall|k: int| 0 <= k < s.push(c).len() implies is_digit(#[trigger] s.push(c)[k]) by {
            if k < s.len() {
                assert(s.push(c)[k] == s[k]);
            }
        }
    } else {
        assert(dec_digits(n) == seq![(48 + n) as char]);
        assert(((48 + n) as char) as nat == 48 + n);
        assert(digit_value((48 + n) as char) == n);
        assert(seq![(48 + n) as char].drop_last() =~= Seq::<char>::empty());
        assert(digits_value(Seq::<char>::empty()) == 0);
        lemma_digits_value_push(Seq::<char>::empty(), (48 + n) as char);
        assert(Seq::<char>::empty().push((48 + n) as char) =~= seq![(48 + n) as char]);
    }
}

proof fn lemma_names_without_digits(field: SwitchField)
    ensures
        forall|k: int| 0 <= k < field.spec_name().len() ==> !is_digit(#[trigger] field.spec_name()[k]),
        field_named(field.spec_name()) == Some(field),
{
    reveal_strlit("GetSwitch");
    reveal_strlit("GetSwitchValue");
    reveal_strlit("StateChangeComplete");
    assert("GetSwitchValue"@.len() != "GetSwitch"@.len());
    assert("StateChangeComplete"@[0] != "GetSwitch"@[0]);
    assert("StateChangeComplete"@[0] != "GetSwitchValue"@[0]);
}

/// Reading back the name under which a property of a switch is reported gives the
/// property and the switch number again.
pub proof fn lemma_switch_key_round_trip(field: SwitchField, index: usize)
    ensures
        spec_parse_switch_key(spec_switch_key(field, index as nat)) == Ok::<(SwitchField, nat), KeyFault>(
            (field, index as nat),
        ),
{
    let name = field.spec_name();
    let digits = dec_digits(index as nat);
    let key = spec_switch_key(field, index as nat);
    lemma_names_without_digits(field);
    lemma_dec_digits(index as nat);
    let l = name.len() as int;
    assert(key[l] == digits[0]);
    assert(is_digit(key[l]));
    assert forall|j: int| 0 <= j < l implies !is_digit(#[trigger] key[j]) by {
        assert(key[j] == name[j]);
    }
    let i = first_digit(key)->0;
    assert(first_digit(key) is Some);
    assert(0 <= i < key.len() && is_digit(key[i]) && forall|j: int| 0 <= j < i ==> !is_digit(key[j]));
    if i < l {
        assert(!is_digit(key[i]));
    }
    if i > l {
        assert(!is_digit(key[l]));
    }
    assert(i == l);
    assert(key.subrange(l, key.len() as int) =~= digits);
    assert(key.subrange(0, l) =~= name);
}

/// `std::time::SystemTime`, carried through as an opaque value.
#[verifier::external_type_specification]
#[verifier::external_body]
pub struct ExSystemTime(std::time::SystemTime);

/// The current time of the system clock (`std::time::SystemTime::now`); nothing is
/// claimed of the value, which depends on the clock.
#[verifier::external_body]
fn system_time_now() -> (r: std::time::SystemTime) {
    std::time::SystemTime::now()
}

/// A wrapper for the device-specific state with the common optional timestamp field.
#[derive(Debug)]
pub struct TimestampedDeviceState<T> {
    /// The timestamp of the last update to the state, if available.
    pub timestamp: Option<std::time::SystemTime>,
    /// The device-specific state.
    pub state: T,
}

impl<T> TimestampedDeviceState<T> {
    /// Create a new `TimestampedDeviceState` with the given state and the current timestamp.
    pub fn new(state: T) -> (r: Self)
        ensures
            r.state == state,
            r.timestamp is Some,
    {
        TimestampedDeviceState { timestamp: Some(system_time_now()), state }
    }
}

/// A device state as it was read from the wire, before it is handed on.
pub struct TimestampedDeviceStateRepr<T>(pub T);

impl<T> TimestampedDeviceStateRepr<T> {
    /// The state that was read.
    pub fn into_inner(self) -> (r: T)
        ensures
            r == self.0,
    {
        self.0
    }
}

/// The fields of one `{"Name": .., "Value": ..}` entry of a device state list.
#[derive(Debug, Clone, Copy, PartialEq, Eq, Structural)]
pub enum EntryKey {
    /// `"Name"`.
    Name,
    /// `"Value"`.
    Value,
}

/// Why an entry of a device state list could not be read.
#[derive(Debug, Clone, Copy, PartialEq, Eq, Structural)]
pub enum EntryError {
    /// The field occurs a second time.
    DuplicateField(EntryKey),
    /// The field does not occur.
    MissingField(EntryKey),
}

/// The field that `key` names, if any.
pub fn entry_key(key: &str) -> (r: Option<EntryKey>)
    ensures
        r == (if key@ == "Name"@ {
            Some(EntryKey::Name)
        } else if key@ == "Value"@ {
            Some(EntryKey::Value)
        } else {
            None
        }),
{
    if same_text(key, "Name") {
        Some(EntryKey::Name)
    } else if same_text(key, "Value") {
        Some(EntryKey::Value)
    } else {
        None
    }
}

/// The fields of a device state entry seen so far.
#[derive(Debug, Clone, Copy, PartialEq, Eq, Structural)]
pub struct EntryFields {
    /// Whether `Name` was seen.
    pub name_seen: bool,
    /// Whether `Value` was seen.
    pub value_seen: bool,
}

impl EntryFields {
    /// No field seen yet.
    pub fn new() -> (r: Self)
        ensures
            !r.name_seen && !r.value_seen,
    {
        EntryFields { name_seen: false, value_seen: false }
    }

    /// Notes that field `key` was met: an error if it was met before.
    pub fn see(&mut self, key: EntryKey) -> (r: Result<(), EntryError>)
        ensures
            match key {
                EntryKey::Name => if old(self).name_seen {
                    r == Err::<(), EntryError>(EntryError::DuplicateField(EntryKey::Name)) && *final(self)
                        == *old(self)
                } else {
                    r is Ok && final(self).name_seen && final(self).value_seen == old(self).value_seen
                },
                EntryKey::Value => if old(self).value_seen {
                    r == Err::<(), EntryError>(EntryError::DuplicateField(EntryKey::Value)) && *final(self)
                        == *old(self)
                } else {
                    r is Ok && final(self).value_seen && final(self).name_seen == old(self).name_seen
                },
            },
    {
        match key {
            EntryKey::Name => {
                if self.name_seen {
                    return Err(EntryError::DuplicateField(EntryKey::Name));
                }
                self.name_seen = true;
            },
            EntryKey::Value => {
                if self.value_seen {
                    return Err(EntryError::DuplicateField(EntryKey::Value));
                }
                self.value_seen = true;
            },
        }
        Ok(())
    }

    /// Whether the entry is complete: `Name` is checked before `Value`.
    pub fn finish(self) -> (r: Result<(), EntryError>)
        ensures
            r == (if !self.name_seen {
                Err(EntryError::MissingField(EntryKey::Name))
            } else if !self.value_seen {
                Err(EntryError::MissingField(EntryKey::Value))
            } else {
                Ok(())
            }),
    {
        if !self.name_seen {
            Err(EntryError::MissingField(EntryKey::Name))
        } else if !self.value_seen {
            Err(EntryError::MissingField(EntryKey::Value))
        } else {
            Ok(())
        }
    }
}

/// A value in a switch bank's device state: a flag, or a number of the bank's number type.
#[derive(Debug, Clone, Copy, PartialEq)]
pub enum SwitchValue<V> {
    /// A flag (`GetSwitch`, `StateChangeComplete`).
    Bool(bool),
    /// A number (`GetSwitchValue`).
    Number(V),
}

/// The state of one switch of a bank.
#[derive(Debug, Clone, Copy, PartialEq)]
pub struct SwitchDeviceState<V> {
    /// Result of `GetSwitch`.
    pub get_switch: Option<bool>,
    /// Result of `GetSwitchValue`.
    pub get_switch_value: Option<V>,
    /// Result of `StateChangeComplete`.
    pub state_change_complete: Option<bool>,
}

/// A switch of which nothing is known.
pub open spec fn unknown_switch<V>() -> SwitchDeviceState<V> {
    SwitchDeviceState { get_switch: None, get_switch_value: None, state_change_complete: None }
}

/// Whether anything is known of a switch.
pub open spec fn is_known<V>(d: SwitchDeviceState<V>) -> bool {
    d.get_switch is Some || d.get_switch_value is Some || d.state_change_complete is Some
}

/// The entry for property `field` of switch number `i`, if its value is known.
pub open spec fn entry_piece<V>(field: SwitchField, i: nat, value: Option<SwitchValue<V>>) -> Seq<
    (Seq<char>, SwitchValue<V>),
> {
    match value {
        Some(v) => seq![(spec_switch_key(field, i), v)],
        None => Seq::empty(),
    }
}

/// A known flag as a device state value.
pub open spec fn flag_value<V>(b: Option<bool>) -> Option<SwitchValue<V>> {
    match b {
        Some(b) => Some(SwitchValue::Bool(b)),
        None => None,
    }
}

/// A known number as a device state value.
pub open spec fn number_value<V>(v: Option<V>) -> Option<SwitchValue<V>> {
    match v {
        Some(v) => Some(SwitchValue::Number(v)),
        None => None,
    }
}

/// The entries under which switch number `i` is reported: each property that is known, in
/// the order `GetSwitch`, `GetSwitchValue`, `StateChangeComplete`.
pub open spec fn switch_entries<V>(d: SwitchDeviceState<V>, i: nat) -> Seq<(Seq<char>, SwitchValue<V>)> {
    entry_piece(SwitchField::GetSwitch, i, flag_value(d.get_switch)) + entry_piece(
        SwitchField::GetSwitchValue,
        i,
        number_value(d.get_switch_value),
    ) + entry_piece(SwitchField::StateChangeComplete, i, flag_value(d.state_change_complete))
}

/// The entries under which a bank reports its switches, switch by switch.
pub open spec fn bank_entries<V>(devs: Seq<SwitchDeviceState<V>>) -> Seq<(Seq<char>, SwitchValue<V>)>
    decreases devs.len(),
{
    if devs.len() == 0 {
        Seq::empty()
    } else {
        bank_entries(devs.drop_last()) + switch_entries(devs.last(), (devs.len() - 1) as nat)
    }
}

/// Why a switch bank's device state could not be read.
#[derive(Debug)]
pub enum DeviceStateError {
    /// An entry name that says no switch property.
    Key(SwitchKeyError),
    /// A value of the wrong kind for the property.
    WrongValue(SwitchField),
}

/// The content of a device state error.
pub enum StateFault {
    /// See [`DeviceStateError::Key`].
    Key(KeyFault),
    /// See [`DeviceStateError::WrongValue`].
    WrongValue(SwitchField),
}

impl View for DeviceStateError {
    type V = StateFault;

    open spec fn view(&self) -> StateFault {
        match self {
            DeviceStateError::Key(k) => StateFault::Key(k@),
            DeviceStateError::WrongValue(f) => StateFault::WrongValue(*f),
        }
    }
}

/// The switch with property `field` set to `value`, if the value is of the right kind.
pub open spec fn with_property<V>(d: SwitchDeviceState<V>, field: SwitchField, value: SwitchValue<V>) -> Option<
    SwitchDeviceState<V>,
> {
    match (field, value) {
        (SwitchField::GetSwitch, SwitchValue::Bool(b)) => Some(SwitchDeviceState { get_switch: Some(b), ..d }),
        (SwitchField::GetSwitchValue, SwitchValue::Number(v)) => Some(
            SwitchDeviceState { get_switch_value: Some(v), ..d },
        ),
        (SwitchField::StateChangeComplete, SwitchValue::Bool(b)) => Some(
            SwitchDeviceState { state_change_complete: Some(b), ..d },
        ),
        _ => None,
    }
}

/// The switches `devs` grown with unknown switches to hold switch number `i`.
pub open spec fn grown_to_hold<V>(devs: Seq<SwitchDeviceState<V>>, i: nat) -> Seq<SwitchDeviceState<V>> {
    if i >= devs.len() {
        devs + Seq::new((i + 1 - devs.len()) as nat, |k: int| unknown_switch::<V>())
    } else {
        devs
    }
}

/// The switches after reading one entry: the list grows to hold the switch number named,
/// and the property named takes the value.
pub open spec fn read_entry<V>(devs: Seq<SwitchDeviceState<V>>, entry: (Seq<char>, SwitchValue<V>)) -> Result<
    Seq<SwitchDeviceState<V>>,
    StateFault,
> {
    match spec_parse_switch_key(entry.0) {
        Err(f) => Err(StateFault::Key(f)),
        Ok((field, i)) => {
            let grown = grown_to_hold(devs, i);
            match with_property(grown[i as int], field, entry.1) {
                Some(d) => Ok(grown.update(i as int, d)),
                None => Err(StateFault::WrongValue(field)),
            }
        },
    }
}

/// The switches after reading the entries in turn.
pub open spec fn read_entries<V>(devs: Seq<SwitchDeviceState<V>>, entries: Seq<(Seq<char>, SwitchValue<V>)>) -> Result<
    Seq<SwitchDeviceState<V>>,
    StateFault,
>
    decreases entries.len(),
{
    if entries.len() == 0 {
        Ok(devs)
    } else {
        match read_entry(devs, entries[0]) {
            Ok(d) => read_entries(d, entries.subrange(1, entries.len() as int)),
            Err(e) => Err(e),
        }
    }
}

/// The state of a switch bank: its switches, indexed by switch number.
#[derive(Debug, Clone)]
pub struct DeviceState<V> {
    /// States of individual switch devices, indexed by their ID.
    pub switch_devices: Vec<SwitchDeviceState<V>>,
}

/// The entries of a list, each name taken by its text.
pub open spec fn entry_models<V>(entries: Seq<(String, SwitchValue<V>)>) -> Seq<(Seq<char>, SwitchValue<V>)> {
    entries.map_values(|e: (String, SwitchValue<V>)| (e.0@, e.1))
}

fn push_entry<V: Copy>(out: &mut Vec<(String, SwitchValue<V>)>, field: SwitchField, index: usize, value: SwitchValue<V>)
    ensures
        entry_models(final(out)@) == entry_models(old(out)@).push((spec_switch_key(field, index as nat), value)),
{
    let key = switch_key(field, index);
    let ghost before = out@;
    out.push((key, value));
    assert(entry_models(out@) =~= entry_models(before).push((spec_switch_key(field, index as nat), value)));
}

impl<V: Copy> DeviceState<V> {
    /// The entries under which the bank reports its switches: for each switch in turn, each
    /// known property as `"GetSwitch{i}"`, `"GetSwitchValue{i}"`, `"StateChangeComplete{i}"`.
    pub fn entries(&self) -> (r: Vec<(String, SwitchValue<V>)>)
        ensures
            entry_models(r@) == bank_entries(self.switch_devices@),
    {
        let devs = &self.switch_devices;
        let mut out: Vec<(String, SwitchValue<V>)> = Vec::new();
        let mut i: usize = 0;
        while i < devs.len()
            invariant
                i <= devs@.len(),
                entry_models(out@) == bank_entries(devs@.take(i as int)),
            decreases devs@.len() - i,
        {
            let d = devs[i];
            let ghost before = entry_models(out@);
            match d.get_switch {
                Some(b) => push_entry(&mut out, SwitchField::GetSwitch, i, SwitchValue::Bool(b)),
                None => {},
            }
            match d.get_switch_value {
                Some(v) => push_entry(&mut out, SwitchField::GetSwitchValue, i, SwitchValue::Number(v)),
                None => {},
            }
            match d.state_change_complete {
                Some(b) => push_entry(&mut out, SwitchField::StateChangeComplete, i, SwitchValue::Bool(b)),
                None => {},
            }
            proof {
                assert(devs@.take(i + 1).drop_last() =~= devs@.take(i as int));
                assert(devs@.take(i + 1).last() == d);
                assert(entry_models(out@) =~= before + switch_entries(d, i as nat));
            }
            i = i + 1;
        }
        assert(devs@.take(devs@.len() as int) =~= devs@);
        out
    }

    /// The state that the entries describe, read in turn: the list of switches grows to
    /// hold every switch number named, and each named property takes its value.
    pub fn from_entries(entries: &Vec<(String, SwitchValue<V>)>) -> (r: Result<Self, DeviceStateError>)
        requires
            forall|k: int|
                0 <= k < entries@.len() ==> (#[trigger] spec_parse_switch_key(entries@[k].0@) matches Ok((_, i))
                    ==> i < usize::MAX),
        ensures
            match read_entries(Seq::empty(), entry_models(entries@)) {
                Ok(d) => r matches Ok(s) && s.switch_devices@ == d,
                Err(f) => r matches Err(e) && e@ == f,
            },
    {
        let ghost models = entry_models(entries@);
        let mut devs: Vec<SwitchDeviceState<V>> = Vec::new();
        let mut k: usize = 0;
        assert(models.subrange(0, models.len() as int) =~= models);
        while k < entries.len()
            invariant
                k <= entries@.len(),
                models == entry_models(entries@),
                forall|j: int|
                    0 <= j < entries@.len() ==> (#[trigger] spec_parse_switch_key(entries@[j].0@) matches Ok((_, i))
                        ==> i < usize::MAX),
                read_entries(Seq::empty(), models) == read_entries(
                    devs@,
                    models.subrange(k as int, models.len() as int),
                ),
            decreases entries@.len() - k,
        {
            let ghost rest = models.subrange(k as int, models.len() as int);
            assert(rest.subrange(1, rest.len() as int) =~= models.subrange(k + 1, models.len() as int));
            assert(rest[0] == models[k as int]);
            assert(models[k as int] == (entries@[k as int].0@, entries@[k as int].1));
            let (field, index) = match parse_switch_key(entries[k].0.as_str()) {
                Ok(p) => p,
                Err(e) => {
                    return Err(DeviceStateError::Key(e));
                },
            };
            assert(index < usize::MAX);
            let ghost before = devs@;
            if devs.len() <= index {
                while devs.len() <= index
                    invariant
                        index < usize::MAX,
                        before.len() <= devs@.len(),
                        devs@.len() <= index + 1,
                        devs@ == before + Seq::new((devs@.len() - before.len()) as nat, |j: int| unknown_switch::<V>()),
                    decreases index + 1 - devs@.len(),
                {
                    devs.push(SwitchDeviceState { get_switch: None, get_switch_value: None, state_change_complete: None });
                    assert(devs@ =~= before + Seq::new((devs@.len() - before.len()) as nat, |j: int| unknown_switch::<V>()));
                }
            }
            proof {
                if index >= before.len() {
                    assert(devs@ =~= grown_to_hold(before, index as nat));
                } else {
                    assert(devs@ =~= before);
                }
            }
            let d = devs[index];
            let value = entries[k].1;
            let updated = match (field, value) {
                (SwitchField::GetSwitch, SwitchValue::Bool(b)) => SwitchDeviceState { get_switch: Some(b), ..d },
                (SwitchField::GetSwitchValue, SwitchValue::Number(v)) => SwitchDeviceState {
                    get_switch_value: Some(v),
                    ..d
                },
                (SwitchField::StateChangeComplete, SwitchValue::Bool(b)) => SwitchDeviceState {
                    state_change_complete: Some(b),
                    ..d
                },
                _ => {
                    return Err(DeviceStateError::WrongValue(field));
                },
            };
            devs.set(index, updated);
            k = k + 1;
        }
        assert(models.subrange(models.len() as int, models.len() as int) =~= Seq::<(Seq<char>, SwitchValue<V>)>::empty());
        Ok(DeviceState { switch_devices: devs })
    }
}

proof fn lemma_read_concat<V>(
    devs: Seq<SwitchDeviceState<V>>,
    a: Seq<(Seq<char>, SwitchValue<V>)>,
    b: Seq<(Seq<char>, SwitchValue<V>)>,
)
    ensures
        read_entries(devs, a + b) == match read_entries(devs, a) {
            Ok(t) => read_entries(t, b),
            Err(e) => Err(e),
        },
    decreases a.len(),
{
    if a.len() == 0 {
        assert(a + b =~= b);
    } else {
        let ab = a + b;
        assert(ab[0] == a[0]);
        assert(ab.subrange(1, ab.len() as int) =~= a.subrange(1, a.len() as int) + b);
        match read_entry(devs, a[0]) {
            Ok(d) => lemma_read_concat(d, a.subrange(1, a.len() as int), b),
            Err(_) => {},
        }
    }
}

proof fn lemma_read_single<V>(devs: Seq<SwitchDeviceState<V>>, e: (Seq<char>, SwitchValue<V>))
    ensures
        read_entries(devs, seq![e]) == read_entry(devs, e),
{
    let s = seq![e];
    assert(s[0] == e);
    assert(s.subrange(1, 1) =~= Seq::<(Seq<char>, SwitchValue<V>)>::empty());
    match read_entry(devs, e) {
        Ok(d) => {
            assert(read_entries(d, s.subrange(1, 1)) == Ok::<Seq<SwitchDeviceState<V>>, StateFault>(d));
        },
        Err(_) => {},
    }
}

/// The switch at number `k` of `cur`, or an unknown switch when `cur` is too short.
pub open spec fn slot<V>(cur: Seq<SwitchDeviceState<V>>, k: nat) -> SwitchDeviceState<V> {
    if k < cur.len() {
        cur[k as int]
    } else {
        unknown_switch()
    }
}

/// Whether `cur` is what reading the switches before number `k` of `devs` gives, or that
/// with switch `k` partly read: up to the last known switch read, the rest unknown.
pub open spec fn read_so_far<V>(devs: Seq<SwitchDeviceState<V>>, k: nat, cur: Seq<SwitchDeviceState<V>>) -> bool {
    ||| (cur.len() == k + 1 && cur.take(k as int) == devs.take(k as int))
    ||| (cur.len() <= k && cur == devs.take(cur.len() as int) && forall|t: int|
        cur.len() <= t < k ==> devs[t] == unknown_switch::<V>())
}

proof fn lemma_read_property<V>(
    devs: Seq<SwitchDeviceState<V>>,
    k: nat,
    cur: Seq<SwitchDeviceState<V>>,
    field: SwitchField,
    value: SwitchValue<V>,
)
    requires
        k < devs.len(),
        k < usize::MAX,
        read_so_far(devs, k, cur),
        with_property(slot(cur, k), field, value) is Some,
    ensures
        ({
            let r = read_entry(cur, (spec_switch_key(field, k), value));
            &&& r is Ok
            &&& r->Ok_0.len() == k + 1
            &&& r->Ok_0.take(k as int) == devs.take(k as int)
            &&& r->Ok_0[k as int] == with_property(slot(cur, k), field, value)->0
        }),
{
    lemma_switch_key_round_trip(field, k as usize);
    let grown = grown_to_hold(cur, k);
    if cur.len() <= k {
        assert(grown.len() == k + 1);
        assert(grown.take(k as int) =~= devs.take(k as int)) by {
            assert forall|t: int| 0 <= t < k implies grown[t] == devs[t] by {
                if t < cur.len() {
                    assert(cur[t] == devs.take(cur.len() as int)[t]);
                }
            }
        }
        assert(grown[k as int] == unknown_switch::<V>());
    }
    let r = read_entry(cur, (spec_switch_key(field, k), value));
    let new = grown.update(k as int, with_property(grown[k as int], field, value)->0);
    assert(r == Ok::<Seq<SwitchDeviceState<V>>, StateFault>(new));
    assert(new.take(k as int) =~= grown.take(k as int));
}

proof fn lemma_read_piece<V>(
    devs: Seq<SwitchDeviceState<V>>,
    k: nat,
    cur: Seq<SwitchDeviceState<V>>,
    field: SwitchField,
    value: Option<SwitchValue<V>>,
) -> (next: Seq<SwitchDeviceState<V>>)
    requires
        k < devs.len(),
        k < usize::MAX,
        read_so_far(devs, k, cur),
        value matches Some(v) ==> with_property(slot(cur, k), field, v) is Some,
    ensures
        read_entries(cur, entry_piece(field, k, value)) == Ok::<Seq<SwitchDeviceState<V>>, StateFault>(next),
        read_so_far(devs, k, next),
        slot(next, k) == match value {
            Some(v) => with_property(slot(cur, k), field, v)->0,
            None => slot(cur, k),
        },
        value is Some ==> next.len() == k + 1,
        value is None ==> next == cur,
{
    match value {
        Some(v) => {
            let e = (spec_switch_key(field, k), v);
            assert(entry_piece(field, k, value) == seq![e]);
            lemma_read_single(cur, e);
            lemma_read_property(devs, k, cur, field, v);
            read_entry(cur, e)->Ok_0
        },
        None => {
            assert(entry_piece(field, k, value) =~= Seq::<(Seq<char>, SwitchValue<V>)>::empty());
            cur
        },
    }
}

proof fn lemma_read_switch<V>(devs: Seq<SwitchDeviceState<V>>, k: nat, cur: Seq<SwitchDeviceState<V>>)
    requires
        k < devs.len(),
        k < usize::MAX,
        read_so_far(devs, k, cur),
        cur.len() <= k,
    ensures
        is_known(devs[k as int]) ==> read_entries(cur, switch_entries(devs[k as int], k)) == Ok::<
            Seq<SwitchDeviceState<V>>,
            StateFault,
        >(devs.take((k + 1) as int)),
        !is_known(devs[k as int]) ==> switch_entries(devs[k as int], k) =~= Seq::<(Seq<char>, SwitchValue<V>)>::empty(),
{
    let d = devs[k as int];
    let p1 = entry_piece(SwitchField::GetSwitch, k, flag_value::<V>(d.get_switch));
    let p2 = entry_piece(SwitchField::GetSwitchValue, k, number_value(d.get_switch_value));
    let p3 = entry_piece(SwitchField::StateChangeComplete, k, flag_value::<V>(d.state_change_complete));
    if is_known(d) {
        lemma_read_concat(cur, p1 + p2, p3);
        lemma_read_concat(cur, p1, p2);
        let c1 = lemma_read_piece(devs, k, cur, SwitchField::GetSwitch, flag_value::<V>(d.get_switch));
        let c2 = lemma_read_piece(devs, k, c1, SwitchField::GetSwitchValue, number_value(d.get_switch_value));
        let c3 = lemma_read_piece(
            devs,
            k,
            c2,
            SwitchField::StateChangeComplete,
            flag_value::<V>(d.state_change_complete),
        );
        assert(c3.len() == k + 1);
        assert(slot(c3, k) == d);
        assert(c3 =~= devs.take((k + 1) as int)) by {
            assert forall|t: int| 0 <= t < k + 1 implies c3[t] == devs.take((k + 1) as int)[t] by {
                if t < k {
                    assert(c3.take(k as int)[t] == devs.take(k as int)[t]);
                }
            }
        }
    } else {
        assert(p1 =~= Seq::<(Seq<char>, SwitchValue<V>)>::empty());
        assert(p2 =~= Seq::<(Seq<char>, SwitchValue<V>)>::empty());
        assert(p3 =~= Seq::<(Seq<char>, SwitchValue<V>)>::empty());
    }
}

/// The number of switches that reading the first `k` switches of `devs` gives: up to the
/// last known one.
pub open spec fn known_len<V>(devs: Seq<SwitchDeviceState<V>>, k: nat) -> nat
    decreases k,
{
    if k == 0 {
        0
    } else if is_known(devs[k - 1]) {
        k
    } else {
        known_len(devs, (k - 1) as nat)
    }
}

proof fn lemma_read_bank<V>(devs: Seq<SwitchDeviceState<V>>, k: nat)
    requires
        k <= devs.len(),
        devs.len() < usize::MAX,
    ensures
        known_len(devs, k) <= k,
        read_entries(Seq::empty(), bank_entries(devs.take(k as int))) == Ok::<
            Seq<SwitchDeviceState<V>>,
            StateFault,
        >(devs.take(known_len(devs, k) as int)),
        forall|t: int| known_len(devs, k) <= t < k ==> devs[t] == unknown_switch::<V>(),
    decreases k,
{
    if k == 0 {
        assert(devs.take(0) =~= Seq::<SwitchDeviceState<V>>::empty());
        assert(bank_entries(devs.take(0)) =~= Seq::<(Seq<char>, SwitchValue<V>)>::empty());
    } else {
        let k1 = (k - 1) as nat;
        lemma_read_bank(devs, k1);
        let prefix = devs.take(k as int);
        assert(prefix.drop_last() =~= devs.take(k1 as int));
        assert(prefix.last() == devs[k1 as int]);
        assert(bank_entries(prefix) == bank_entries(devs.take(k1 as int)) + switch_entries(devs[k1 as int], k1));
        lemma_read_concat(Seq::empty(), bank_entries(devs.take(k1 as int)), switch_entries(devs[k1 as int], k1));
        let cur = devs.take(known_len(devs, k1) as int);
        assert(cur == devs.take(cur.len() as int));
        assert(read_so_far(devs, k1, cur));
        lemma_read_switch(devs, k1, cur);
        if !is_known(devs[k1 as int]) {
            assert(bank_entries(prefix) =~= bank_entries(devs.take(k1 as int)));
        }
    }
}

/// Reading back the entries under which a switch bank reports its switches gives the
/// switches again.
///
/// This holds when the last switch has a known property: unknown switches at the end
/// leave no entry behind.
pub proof fn lemma_device_state_round_trip<V>(devs: Seq<SwitchDeviceState<V>>)
    requires
        devs.len() < usize::MAX,
        devs.len() == 0 || is_known(devs.last()),
    ensures
        read_entries(Seq::empty(), bank_entries(devs)) == Ok::<Seq<SwitchDeviceState<V>>, StateFault>(devs),
{
    lemma_read_bank(devs, devs.len());
    assert(devs.take(devs.len() as int) =~= devs);
}

/// The properties of a switch bank's device state are named as the Switch interface names
/// them: `GetSwitch`, `GetSwitchValue` and `StateChangeComplete`; each name is read back as
/// its own property, and every other name as none.
pub proof fn lemma_switch_field_names(f: SwitchField, name: Seq<char>)
    ensures
        SwitchField::GetSwitch.spec_name() == "GetSwitch"@,
        SwitchField::GetSwitchValue.spec_name() == "GetSwitchValue"@,
        SwitchField::StateChangeComplete.spec_name() == "StateChangeComplete"@,
        field_named(f.spec_name()) == Some(f),
        (name != "GetSwitch"@ && name != "GetSwitchValue"@ && name != "StateChangeComplete"@)
            ==> field_named(name) is None,
{
    lemma_names_without_digits(f);
}

} // verus!
