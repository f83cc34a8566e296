//! The 16-key hexadecimal keypad: keyboard mappings, key state, the buffer
//! of recent key presses, and the non-blocking "take a key" operation that the
//! key-wait instruction polls.
use vstd::prelude::*;
use std::collections::VecDeque;
use crate::constants::NUM_KEYS;
use crate::display::count_on;

verus! {

/// A key event delivered from outside (a terminal, a test).
#[derive(Debug, Clone, Copy, PartialEq, Eq, Structural)]
pub enum KeyEvent {
    /// A key was pressed.
    Pressed(char),
    /// A key was released.
    Released(char),
}

/// Errors of input operations.
#[derive(Debug, Clone, Copy, PartialEq, Eq, Structural)]
pub enum InputError {
    InvalidKey { key: u8 },
}

/// The most recent value bound to `k` in an association list (later entries
/// override earlier ones).
pub open spec fn lookup<K, V>(s: Seq<(K, V)>, k: K) -> Option<V>
    decreases s.len(),
{
    if s.len() == 0 {
        None
    } else if s.last().0 == k {
        Some(s.last().1)
    } else {
        lookup(s.drop_last(), k)
    }
}

/// ASCII upper case: `a`..=`z` map to `A`..=`Z`, every other char to itself.
pub open spec fn ascii_upper(c: char) -> char {
    if 'a' <= c && c <= 'z' {
        ((c as u32) - 32) as char
    } else {
        c
    }
}

/// ASCII lower case: `A`..=`Z` map to `a`..=`z`, every other char to itself.
pub open spec fn ascii_lower(c: char) -> char {
    if 'A' <= c && c <= 'Z' {
        ((c as u32) + 32) as char
    } else {
        c
    }
}

/// The key of the first pair whose key is not a keypad key.
pub open spec fn first_invalid(pairs: Seq<(char, u8)>) -> Option<u8>
    decreases pairs.len(),
{
    if pairs.len() == 0 {
        None
    } else {
        match first_invalid(pairs.drop_last()) {
            Some(k) => Some(k),
            None => if pairs.last().1 > 15 {
                Some(pairs.last().1)
            } else {
                None
            },
        }
    }
}

/// The keyboard-to-keypad entries made from mapping pairs: each character is
/// bound, and so is its upper-case form when that differs.
pub open spec fn forward_entries(pairs: Seq<(char, u8)>) -> Seq<(char, u8)>
    decreases pairs.len(),
{
    if pairs.len() == 0 {
        Seq::empty()
    } else {
        let prev = forward_entries(pairs.drop_last());
        let (c, k) = pairs.last();
        if ascii_upper(c) != c {
            prev.push((c, k)).push((ascii_upper(c), k))
        } else {
            prev.push((c, k))
        }
    }
}

/// The keypad-to-keyboard entries made from mapping pairs.
pub open spec fn reverse_entries(pairs: Seq<(char, u8)>) -> Seq<(u8, char)> {
    pairs.map_values(|p: (char, u8)| (p.1, p.0))
}

/// Whether `key` is a keypad key (0-15).
pub fn is_valid_key(key: u8) -> (r: bool)
    ensures
        r == (key <= 15),
{
    key <= 0xF
}

/// Relies on `char::to_ascii_uppercase`: `a`..=`z` become `A`..=`Z`, every
/// other character is returned unchanged. Used to bind upper-case keys.
#[verifier::external_body]
fn to_ascii_upper(c: char) -> (r: char)
    ensures
        r == ascii_upper(c),
{
    c.to_ascii_uppercase()
}

/// Relies on `char::to_ascii_lowercase`: `A`..=`Z` become `a`..=`z`, every
/// other character is returned unchanged. Used on configured keyboard keys.
#[verifier::external_body]
fn to_ascii_lower(c: char) -> (r: char)
    ensures
        r == ascii_lower(c),
{
    c.to_ascii_lowercase()
}

/// Resolved key mappings between keyboard characters and keypad keys.
#[derive(Debug)]
pub struct KeyMappings {
    key_map: Vec<(char, u8)>,
    reverse_key_map: Vec<(u8, char)>,
}

impl KeyMappings {
    /// Keyboard-to-keypad entries; later entries override earlier ones.
    pub closed spec fn forward(&self) -> Seq<(char, u8)> {
        self.key_map@
    }

    /// Keypad-to-keyboard entries; later entries override earlier ones.
    pub closed spec fn reverse(&self) -> Seq<(u8, char)> {
        self.reverse_key_map@
    }

    /// Mappings from `(keyboard char, keypad key)` pairs. Fails with the
    /// first pair whose keypad key is over 15.
    pub fn from_pairs(mappings: &[(char, u8)]) -> (r: Result<Self, InputError>)
        ensures
            first_invalid(mappings@) matches Some(k) ==> r == Err::<Self, InputError>(
                InputError::InvalidKey { key: k },
            ),
            first_invalid(mappings@) is None ==> r is Ok && r->Ok_0.forward() == forward_entries(
                mappings@,
            ) && r->Ok_0.reverse() == reverse_entries(mappings@),
    {
        let mut key_map: Vec<(char, u8)> = Vec::new();
        let mut reverse_key_map: Vec<(u8, char)> = Vec::new();
        let mut i: usize = 0;
        while i < mappings.len()
            invariant
                i <= mappings@.len(),
                first_invalid(mappings@.subrange(0, i as int)) is None,
                key_map@ == forward_entries(mappings@.subrange(0, i as int)),
                reverse_key_map@ == reverse_entries(mappings@.subrange(0, i as int)),
                forall|j: int| 0 <= j < key_map@.len() ==> #[trigger] key_map@[j].1 <= 15,
            decreases mappings@.len() - i,
        {
            let (keyboard_key, chip8_key) = mappings[i];
            assert(mappings@.subrange(0, i + 1).drop_last() =~= mappings@.subrange(0, i as int));
            if !is_valid_key(chip8_key) {
                proof {
                    lemma_first_invalid_prefix(mappings@, i as int + 1);
                }
                return Err(InputError::InvalidKey { key: chip8_key });
            }
            key_map.push((keyboard_key, chip8_key));
            let upper = to_ascii_upper(keyboard_key);
            if upper != keyboard_key {
                key_map.push((upper, chip8_key));
            }
            reverse_key_map.push((chip8_key, keyboard_key));
            i += 1;
            assert(reverse_key_map@ =~= reverse_entries(mappings@.subrange(0, i as int)));
        }
        assert(mappings@.subrange(0, i as int) =~= mappings@);
        Ok(KeyMappings { key_map, reverse_key_map })
    }

    /// The keypad key bound to a keyboard character.
    pub fn get_chip8_key(&self, keyboard_key: char) -> (r: Option<u8>)
        ensures
            r == lookup(self.forward(), keyboard_key),
    {
        let mut i: usize = self.key_map.len();
        assert(self.key_map@.subrange(0, i as int) =~= self.key_map@);
        while i > 0
            invariant
                i <= self.key_map@.len(),
                lookup(self.key_map@, keyboard_key) == lookup(
                    self.key_map@.subrange(0, i as int),
                    keyboard_key,
                ),
            decreases i,
        {
            assert(self.key_map@.subrange(0, i as int).drop_last() =~= self.key_map@.subrange(
                0,
                i - 1,
            ));
            i -= 1;
            if self.key_map[i].0 == keyboard_key {
                return Some(self.key_map[i].1);
            }
        }
        None
    }

    /// The keyboard character bound to a keypad key.
    pub fn get_keyboard_key(&self, chip8_key: u8) -> (r: Option<char>)
        ensures
            r == lookup(self.reverse(), chip8_key),
    {
        let mut i: usize = self.reverse_key_map.len();
        assert(self.reverse_key_map@.subrange(0, i as int) =~= self.reverse_key_map@);
        while i > 0
            invariant
                i <= self.reverse_key_map@.len(),
                lookup(self.reverse_key_map@, chip8_key) == lookup(
                    self.reverse_key_map@.subrange(0, i as int),
                    chip8_key,
                ),
            decreases i,
        {
            assert(self.reverse_key_map@.subrange(0, i as int).drop_last()
                =~= self.reverse_key_map@.subrange(0, i - 1));
            i -= 1;
            if self.reverse_key_map[i].0 == chip8_key {
                return Some(self.reverse_key_map[i].1);
            }
        }
        None
    }
}

/// An invalid pair in a prefix is found in the whole list too.
proof fn lemma_first_invalid_prefix(pairs: Seq<(char, u8)>, n: int)
    requires
        0 < n <= pairs.len(),
        first_invalid(pairs.subrange(0, n - 1)) is None,
        pairs[n - 1].1 > 15,
    ensures
        first_invalid(pairs) == Some(pairs[n - 1].1),
    decreases pairs.len() - n,
{
    if n == pairs.len() {
        assert(pairs.drop_last() =~= pairs.subrange(0, n - 1));
    } else {
        assert(pairs.drop_last().subrange(0, n - 1) =~= pairs.subrange(0, n - 1));
        lemma_first_invalid_prefix(pairs.drop_last(), n);
    }
}

/// Pairs whose keypad keys are all at most 15 have no invalid pair.
proof fn lemma_all_valid(pairs: Seq<(char, u8)>)
    requires
        forall|i: int| 0 <= i < pairs.len() ==> #[trigger] pairs[i].1 <= 15,
    ensures
        first_invalid(pairs) is None,
    decreases pairs.len(),
{
    if pairs.len() > 0 {
        lemma_all_valid(pairs.drop_last());
    }
}

/// The default layout: `1 2 3 4 / q w e r / a s d f / z x c v` over the
/// keypad `1 2 3 C / 4 5 6 D / 7 8 9 E / A 0 B F`.
pub open spec fn default_pairs() -> Seq<(char, u8)> {
    seq![
        ('1', 0x1u8), ('2', 0x2u8), ('3', 0x3u8), ('4', 0xCu8),
        ('q', 0x4u8), ('w', 0x5u8), ('e', 0x6u8), ('r', 0xDu8),
        ('a', 0x7u8), ('s', 0x8u8), ('d', 0x9u8), ('f', 0xEu8),
        ('z', 0xAu8), ('x', 0x0u8), ('c', 0xBu8), ('v', 0xFu8),
    ]
}

/// Mapping pairs made from configured `(keypad key in hex, keyboard key)`
/// entries: the first character of each keyboard key, lower-cased. An entry
/// whose keyboard key is empty is skipped.
pub open spec fn converted_pairs(entries: Seq<(Seq<char>, Seq<char>)>) -> Result<
    Seq<(char, u8)>,
    InputError,
>
    decreases entries.len(),
{
    if entries.len() == 0 {
        Ok(Seq::empty())
    } else {
        match converted_pairs(entries.drop_last()) {
            Err(e) => Err(e),
            Ok(prev) => {
                let (hex, keyboard) = entries.last();
                match entry_pair(parse_hex_byte(hex), keyboard) {
                    Err(e) => Err(e),
                    Ok(None) => Ok(prev),
                    Ok(Some(pair)) => Ok(prev.push(pair)),
                }
            },
        }
    }
}

/// The mapping pair of one configured entry, given its parsed keypad key:
/// an unparsable key is reported as key 255, a key over 15 as itself, and an
/// empty keyboard key gives no pair.
pub open spec fn entry_pair(parsed: Option<u8>, keyboard: Seq<char>) -> Result<Option<(char, u8)>, InputError> {
    match parsed {
        None => Err(InputError::InvalidKey { key: 255 }),
        Some(k) => if k > 15 {
            Err(InputError::InvalidKey { key: k })
        } else if keyboard.len() == 0 {
            Ok(None)
        } else {
            Ok(Some((ascii_lower(keyboard[0]), k)))
        },
    }
}

/// The mapping pair of one configured entry, given its keypad key as parsed
/// from hex (`None` when it did not parse) and its keyboard key.
pub fn mapping_pair(parsed: Option<u8>, keyboard_key: &str) -> (r: Result<Option<(char, u8)>, InputError>)
    ensures
        r == entry_pair(parsed, keyboard_key@),
{
    let chip8_key = match parsed {
        Some(k) => k,
        None => {
            return Err(InputError::InvalidKey { key: 255 });
        },
    };
    if !is_valid_key(chip8_key) {
        return Err(InputError::InvalidKey { key: chip8_key });
    }
    match first_char(keyboard_key) {
        Some(keyboard_char) => Ok(Some((to_ascii_lower(keyboard_char), chip8_key))),
        None => Ok(None),
    }
}

/// The views of configured entries.
pub open spec fn entry_views(entries: Seq<(String, String)>) -> Seq<(Seq<char>, Seq<char>)> {
    entries.map_values(|e: (String, String)| (e.0@, e.1@))
}

/// What `u8::from_str_radix(s, 16)` returns for `s`.
pub uninterp spec fn parse_hex_byte(s: Seq<char>) -> Option<u8>;

/// Relies on `u8::from_str_radix` with radix 16, to read configured keypad
/// keys: the result depends on the characters alone.
#[verifier::external_body]
fn parse_hex(s: &str) -> (r: Option<u8>)
    ensures
        r == parse_hex_byte(s@),
{
    u8::from_str_radix(s, 16).ok()
}

/// Relies on `str::chars` and `Iterator::next`: the first character of the
/// string, or `None` for an empty string.
#[verifier::external_body]
fn first_char(s: &str) -> (r: Option<char>)
    ensures
        s@.len() == 0 ==> r is None,
        s@.len() > 0 ==> r == Some(s@[0]),
{
    s.chars().next()
}

/// The default mappings.
fn default_key_mappings() -> (r: KeyMappings)
    ensures
        r.forward() == forward_entries(default_pairs()),
        r.reverse() == reverse_entries(default_pairs()),
{
    let pairs: [(char, u8); 16] = [
        ('1', 0x1), ('2', 0x2), ('3', 0x3), ('4', 0xC),
        ('q', 0x4), ('w', 0x5), ('e', 0x6), ('r', 0xD),
        ('a', 0x7), ('s', 0x8), ('d', 0x9), ('f', 0xE),
        ('z', 0xA), ('x', 0x0), ('c', 0xB), ('v', 0xF),
    ];
    assert(pairs@ =~= default_pairs());
    proof {
        lemma_all_valid(pairs@);
    }
    match KeyMappings::from_pairs(pairs.as_slice()) {
        Ok(m) => m,
        Err(_) => {
            proof {
                assert(false);
            }
            KeyMappings { key_map: Vec::new(), reverse_key_map: Vec::new() }
        },
    }
}

/// Mappings from configured `(keypad key in hex, keyboard key)` entries, or
/// the default layout when there are none.
pub fn resolve_key_mappings(config_mappings: Option<&Vec<(String, String)>>) -> (r: Result<
    KeyMappings,
    InputError,
>)
    ensures
        config_mappings is None ==> r is Ok && r->Ok_0.forward() == forward_entries(
            default_pairs(),
        ) && r->Ok_0.reverse() == reverse_entries(default_pairs()),
        config_mappings matches Some(m) ==> match converted_pairs(entry_views(m@)) {
            Err(e) => r == Err::<KeyMappings, InputError>(e),
            Ok(pairs) => r is Ok && r->Ok_0.forward() == forward_entries(pairs)
                && r->Ok_0.reverse() == reverse_entries(pairs),
        },
{
    match config_mappings {
        None => Ok(default_key_mappings()),
        Some(mappings) => {
            let mut converted: Vec<(char, u8)> = Vec::new();
            let mut i: usize = 0;
            while i < mappings.len()
                invariant
                    i <= mappings@.len(),
                    config_mappings == Some(mappings),
                    converted_pairs(entry_views(mappings@.subrange(0, i as int))) == Ok::<
                        Seq<(char, u8)>,
                        InputError,
                    >(converted@),
                    forall|j: int| 0 <= j < converted@.len() ==> #[trigger] converted@[j].1 <= 15,
                decreases mappings@.len() - i,
            {
                assert(entry_views(mappings@.subrange(0, i + 1)).drop_last() =~= entry_views(
                    mappings@.subrange(0, i as int),
                ));
                assert(entry_views(mappings@.subrange(0, i + 1)).last() == (
                    mappings@[i as int].0@,
                    mappings@[i as int].1@,
                ));
                let parsed = parse_hex(mappings[i].0.as_str());
                match mapping_pair(parsed, mappings[i].1.as_str()) {
                    Ok(Some(pair)) => {
                        converted.push(pair);
                    },
                    Ok(None) => {},
                    Err(e) => {
                        proof {
                            lemma_converted_error_extends(mappings@, i as int + 1);
                        }
                        return Err(e);
                    },
                }
                i += 1;
            }
            assert(mappings@.subrange(0, i as int) =~= mappings@);
            proof {
                lemma_all_valid(converted@);
            }
            KeyMappings::from_pairs(converted.as_slice())
        },
    }
}

/// An error in converting a prefix of the entries is the error of the whole.
proof fn lemma_converted_error_extends(entries: Seq<(String, String)>, n: int)
    requires
        0 < n <= entries.len(),
        converted_pairs(entry_views(entries.subrange(0, n))) is Err,
    ensures
        converted_pairs(entry_views(entries)) == converted_pairs(
            entry_views(entries.subrange(0, n)),
        ),
    decreases entries.len() - n,
{
    if n < entries.len() {
        assert(entries.drop_last().subrange(0, n) =~= entries.subrange(0, n));
        lemma_converted_error_extends(entries.drop_last(), n);
        assert(entry_views(entries).drop_last() =~= entry_views(entries.drop_last()));
    } else {
        assert(entries.subrange(0, n) =~= entries);
    }
}

/// The index of the first pressed key.
pub open spec fn first_pressed(keys: Seq<bool>) -> Option<u8>
    decreases keys.len(),
{
    if keys.len() == 0 {
        None
    } else {
        match first_pressed(keys.drop_last()) {
            Some(k) => Some(k),
            None => if keys.last() {
                Some((keys.len() - 1) as u8)
            } else {
                None
            },
        }
    }
}

/// The indices of the pressed keys, in increasing order.
pub open spec fn pressed_list(keys: Seq<bool>) -> Seq<u8>
    decreases keys.len(),
{
    if keys.len() == 0 {
        Seq::empty()
    } else if keys.last() {
        pressed_list(keys.drop_last()).push((keys.len() - 1) as u8)
    } else {
        pressed_list(keys.drop_last())
    }
}

/// Outcome of asking whether `key` is pressed.
pub open spec fn key_pressed_spec(keys: Seq<bool>, key: u8) -> Result<bool, InputError> {
    if key > 15 {
        Err(InputError::InvalidKey { key })
    } else {
        Ok(keys[key as int])
    }
}

/// Taking a key from a buffer of recent presses: characters are popped from
/// the end until one that is mapped; its keypad key is returned along with
/// what is left.
pub open spec fn take_from_buffer(buffer: Seq<char>, forward: Seq<(char, u8)>) -> (
    Option<u8>,
    Seq<char>,
)
    decreases buffer.len(),
{
    if buffer.len() == 0 {
        (None, buffer)
    } else {
        match lookup(forward, buffer.last()) {
            Some(k) => (Some(k), buffer.drop_last()),
            None => take_from_buffer(buffer.drop_last(), forward),
        }
    }
}

/// The key a keypad hands out: the lowest pressed key, else the most recent
/// mapped press in the buffer.
pub open spec fn keypad_next_key(keys: Seq<bool>, buffer: Seq<char>, forward: Seq<(char, u8)>) -> Option<u8> {
    match first_pressed(keys) {
        Some(k) => Some(k),
        None => take_from_buffer(buffer, forward).0,
    }
}

/// What an input collaborator offers the interpreter.
pub trait InputBus: Sized {
    /// Pressed state of the 16 keys.
    spec fn key_states(&self) -> Seq<bool>;

    /// The key that a non-blocking take would return now.
    spec fn next_key(&self) -> Option<u8>;

    /// How a take changes the collaborator.
    spec fn key_taken(&self, after: Self) -> bool;

    /// Whether a key is pressed; keys over 15 are refused.
    fn is_key_pressed(&self, key: u8) -> (r: Result<bool, InputError>)
        ensures
            r == key_pressed_spec(self.key_states(), key),
    ;

    /// Take a key press without blocking; `None` when no key is available.
    fn try_get_key_press(&mut self) -> (r: Option<u8>)
        ensures
            r == old(self).next_key(),
            old(self).key_taken(*final(self)),
    ;

    /// Take in events delivered since the last call.
    fn update(&mut self);

    /// The pressed keys, in increasing order.
    fn get_pressed_keys(&self) -> (r: Vec<u8>)
        ensures
            r@ == pressed_list(self.key_states()),
    ;
}

/// The pressed keys of a key-state array.
fn pressed_keys_of(key_states: &[bool; NUM_KEYS]) -> (r: Vec<u8>)
    ensures
        r@ == pressed_list(key_states@),
{
    let mut r: Vec<u8> = Vec::new();
    let mut i: usize = 0;
    while i < NUM_KEYS
        invariant
            i <= NUM_KEYS,
            key_states@.len() == NUM_KEYS,
            r@ == pressed_list(key_states@.subrange(0, i as int)),
        decreases NUM_KEYS - i,
    {
        assert(key_states@.subrange(0, i + 1).drop_last() =~= key_states@.subrange(0, i as int));
        if key_states[i] {
            r.push(i as u8);
        }
        i += 1;
    }
    assert(key_states@.subrange(0, NUM_KEYS as int) =~= key_states@);
    r
}

/// The keypad state as a player drives it through the keyboard.
#[derive(Debug)]
pub struct Input {
    key_states: [bool; NUM_KEYS],
    key_mappings: KeyMappings,
    input_buffer: Vec<char>,
    waiting_for_key: bool,
    pending_events: Vec<KeyEvent>,
}

/// Key state and buffer after a keyboard character is pressed: a mapped
/// character presses its key and is remembered in the buffer.
pub open spec fn press_char(keys: Seq<bool>, buffer: Seq<char>, forward: Seq<(char, u8)>, ch: char) -> (
    Seq<bool>,
    Seq<char>,
) {
    match lookup(forward, ch) {
        Some(k) => (keys.update(k as int, true), buffer.push(ch)),
        None => (keys, buffer),
    }
}

/// Key state after a keyboard character is released.
pub open spec fn release_char(keys: Seq<bool>, forward: Seq<(char, u8)>, ch: char) -> Seq<bool> {
    match lookup(forward, ch) {
        Some(k) => keys.update(k as int, false),
        None => keys,
    }
}

/// Key state and buffer after a sequence of events, in order.
pub open spec fn apply_events(
    keys: Seq<bool>,
    buffer: Seq<char>,
    forward: Seq<(char, u8)>,
    events: Seq<KeyEvent>,
) -> (Seq<bool>, Seq<char>)
    decreases events.len(),
{
    if events.len() == 0 {
        (keys, buffer)
    } else {
        let (k, b) = apply_events(keys, buffer, forward, events.drop_last());
        match events.last() {
            KeyEvent::Pressed(ch) => press_char(k, b, forward, ch),
            KeyEvent::Released(ch) => (release_char(k, forward, ch), b),
        }
    }
}

impl Input {
    /// Pressed state of the 16 keys.
    pub closed spec fn keys(&self) -> Seq<bool> {
        self.key_states@
    }

    /// Recently pressed mapped characters, oldest first.
    pub closed spec fn buffer(&self) -> Seq<char> {
        self.input_buffer@
    }

    /// Keyboard-to-keypad entries in use.
    pub closed spec fn forward(&self) -> Seq<(char, u8)> {
        self.key_mappings.forward()
    }

    /// Keypad-to-keyboard entries in use.
    pub closed spec fn reverse(&self) -> Seq<(u8, char)> {
        self.key_mappings.reverse()
    }

    /// Events queued for the next `update`.
    pub closed spec fn pending(&self) -> Seq<KeyEvent> {
        self.pending_events@
    }

    /// Whether the keypad reports that it waits for input.
    pub closed spec fn waiting(&self) -> bool {
        self.waiting_for_key
    }

    /// A keypad with the default layout and no key pressed.
    pub fn new() -> (r: Self)
        ensures
            r.keys() == Seq::new(NUM_KEYS as nat, |i: int| false),
            r.buffer() == Seq::<char>::empty(),
            r.pending() == Seq::<KeyEvent>::empty(),
            !r.waiting(),
            r.forward() == forward_entries(default_pairs()),
            r.reverse() == reverse_entries(default_pairs()),
    {
        Self::with_mappings(default_key_mappings())
    }

    /// A keypad with the given mappings and no key pressed.
    pub fn with_mappings(key_mappings: KeyMappings) -> (r: Self)
        ensures
            r.keys() == Seq::new(NUM_KEYS as nat, |i: int| false),
            r.buffer() == Seq::<char>::empty(),
            r.pending() == Seq::<KeyEvent>::empty(),
            !r.waiting(),
            r.forward() == key_mappings.forward(),
            r.reverse() == key_mappings.reverse(),
    {
        let r = Input {
            key_states: [false; NUM_KEYS],
            key_mappings,
            input_buffer: Vec::new(),
            waiting_for_key: false,
            pending_events: Vec::new(),
        };
        assert(r.key_states@ =~= Seq::new(NUM_KEYS as nat, |i: int| false));
        r
    }

    /// The keyboard character bound to a keypad key.
    pub fn get_keyboard_key(&self, chip8_key: u8) -> (r: Option<char>)
        ensures
            r == lookup(self.reverse(), chip8_key),
    {
        self.key_mappings.get_keyboard_key(chip8_key)
    }

    /// The keypad key bound to a keyboard character.
    pub fn get_chip8_key(&self, keyboard_key: char) -> (r: Option<u8>)
        ensures
            r == lookup(self.forward(), keyboard_key),
    {
        self.key_mappings.get_chip8_key(keyboard_key)
    }

    /// Press a keypad key directly.
    pub fn press_key(&mut self, key: u8) -> (r: Result<(), InputError>)
        ensures
            key > 15 ==> r == Err::<(), InputError>(InputError::InvalidKey { key }) && *final(self)
                == *old(self),
            key <= 15 ==> r is Ok && final(self).keys() == old(self).keys().update(
                key as int,
                true,
            ),
            final(self).buffer() == old(self).buffer(),
            final(self).forward() == old(self).forward(),
            final(self).reverse() == old(self).reverse(),
            final(self).pending() == old(self).pending(),
            final(self).waiting() == old(self).waiting(),
    {
        if !is_valid_key(key) {
            return Err(InputError::InvalidKey { key });
        }
        self.key_states[key as usize] = true;
        Ok(())
    }

    /// Release a keypad key directly.
    pub fn release_key(&mut self, key: u8) -> (r: Result<(), InputError>)
        ensures
            key > 15 ==> r == Err::<(), InputError>(InputError::InvalidKey { key }) && *final(self)
                == *old(self),
            key <= 15 ==> r is Ok && final(self).keys() == old(self).keys().update(
                key as int,
                false,
            ),
            final(self).buffer() == old(self).buffer(),
            final(self).forward() == old(self).forward(),
            final(self).reverse() == old(self).reverse(),
            final(self).pending() == old(self).pending(),
            final(self).waiting() == old(self).waiting(),
    {
        if !is_valid_key(key) {
            return Err(InputError::InvalidKey { key });
        }
        self.key_states[key as usize] = false;
        Ok(())
    }

    /// A keyboard character was pressed: a mapped one presses its key and
    /// is remembered for a later key wait.
    pub fn process_char_input(&mut self, ch: char)
        ensures
            (final(self).keys(), final(self).buffer()) == press_char(
                old(self).keys(),
                old(self).buffer(),
                old(self).forward(),
                ch,
            ),
            final(self).forward() == old(self).forward(),
            final(self).reverse() == old(self).reverse(),
            final(self).pending() == old(self).pending(),
            final(self).waiting() == old(self).waiting(),
    {
        proof {
            use_type_invariant(&self.key_mappings);
            self.key_mappings.lemma_lookup_valid(ch);
        }
        if let Some(chip8_key_value) = self.get_chip8_key(ch) {
            self.key_states[chip8_key_value as usize] = true;
            self.input_buffer.push(ch);
        }
    }

    /// A keyboard character was released.
    pub fn process_char_release(&mut self, ch: char)
        ensures
            final(self).keys() == release_char(old(self).keys(), old(self).forward(), ch),
            final(self).buffer() == old(self).buffer(),
            final(self).forward() == old(self).forward(),
            final(self).reverse() == old(self).reverse(),
            final(self).pending() == old(self).pending(),
            final(self).waiting() == old(self).waiting(),
    {
        proof {
            use_type_invariant(&self.key_mappings);
            self.key_mappings.lemma_lookup_valid(ch);
        }
        if let Some(chip8_key_value) = self.get_chip8_key(ch) {
            self.key_states[chip8_key_value as usize] = false;
        }
    }

    /// Queue an event for the next `update`.
    pub fn queue_event(&mut self, event: KeyEvent)
        ensures
            final(self).pending() == old(self).pending().push(event),
            final(self).keys() == old(self).keys(),
            final(self).buffer() == old(self).buffer(),
            final(self).forward() == old(self).forward(),
            final(self).reverse() == old(self).reverse(),
            final(self).waiting() == old(self).waiting(),
    {
        self.pending_events.push(event);
    }

    /// Release every key and forget buffered presses.
    pub fn clear_all_keys(&mut self)
        ensures
            final(self).keys() == Seq::new(NUM_KEYS as nat, |i: int| false),
            final(self).buffer() == Seq::<char>::empty(),
            final(self).forward() == old(self).forward(),
            final(self).reverse() == old(self).reverse(),
            final(self).pending() == old(self).pending(),
            final(self).waiting() == old(self).waiting(),
    {
        self.key_states = [false; NUM_KEYS];
        self.input_buffer.clear();
        assert(self.key_states@ =~= Seq::new(NUM_KEYS as nat, |i: int| false));
    }

    /// Forget buffered presses.
    pub fn clear_input_buffer(&mut self)
        ensures
            final(self).buffer() == Seq::<char>::empty(),
            final(self).keys() == old(self).keys(),
            final(self).forward() == old(self).forward(),
            final(self).reverse() == old(self).reverse(),
            final(self).pending() == old(self).pending(),
            final(self).waiting() == old(self).waiting(),
    {
        self.input_buffer.clear();
    }

    /// How many keys are pressed and how many keypad keys have a keyboard key.
    pub fn get_stats(&self) -> (r: InputStats)
        ensures
            r.pressed_keys == count_on(self.keys()),
            r.total_keys == NUM_KEYS,
            r.mapped_keyboard_keys == count_mapped(self.reverse(), NUM_KEYS as nat),
            r.waiting_for_input == self.waiting(),
    {
        let mut pressed: usize = 0;
        let mut mapped: usize = 0;
        let mut i: usize = 0;
        while i < NUM_KEYS
            invariant
                i <= NUM_KEYS,
                self.key_states@.len() == NUM_KEYS,
                pressed == count_on(self.key_states@.subrange(0, i as int)),
                mapped == count_mapped(self.reverse(), i as nat),
                pressed <= i,
                mapped <= i,
            decreases NUM_KEYS - i,
        {
            assert(self.key_states@.subrange(0, i + 1).drop_last() =~= self.key_states@.subrange(
                0,
                i as int,
            ));
            if self.key_states[i] {
                pressed += 1;
            }
            if self.key_mappings.get_keyboard_key(i as u8).is_some() {
                mapped += 1;
            }
            i += 1;
        }
        assert(self.key_states@.subrange(0, NUM_KEYS as int) =~= self.key_states@);
        InputStats {
            pressed_keys: pressed,
            total_keys: NUM_KEYS,
            mapped_keyboard_keys: mapped,
            waiting_for_input: self.waiting_for_key,
        }
    }
}

/// How many of the keypad keys below `n` have a keyboard key.
pub open spec fn count_mapped(reverse: Seq<(u8, char)>, n: nat) -> nat
    decreases n,
{
    if n == 0 {
        0
    } else {
        count_mapped(reverse, (n - 1) as nat) + if lookup(reverse, (n - 1) as u8) is Some {
            1nat
        } else {
            0nat
        }
    }
}

impl KeyMappings {
    /// Every keypad key in the mappings is at most 15.
    #[verifier::type_invariant]
    spec fn keys_valid(&self) -> bool {
        forall|i: int| 0 <= i < self.key_map@.len() ==> #[trigger] self.key_map@[i].1 <= 15
    }

    /// A keyboard character maps to a keypad key 0-15.
    proof fn lemma_lookup_valid(&self, ch: char)
        requires
            self.keys_valid(),
        ensures
            lookup(self.forward(), ch) matches Some(k) ==> k <= 15,
    {
        lemma_lookup_in(self.key_map@, ch);
    }
}

/// A value found by lookup is one of the entries.
proof fn lemma_lookup_in(s: Seq<(char, u8)>, k: char)
    ensures
        lookup(s, k) matches Some(v) ==> exists|i: int| 0 <= i < s.len() && #[trigger] s[i].1 == v,
    decreases s.len(),
{
    if s.len() > 0 && s.last().0 != k {
        lemma_lookup_in(s.drop_last(), k);
        if lookup(s, k) is Some {
            let i = choose|i: int| 0 <= i < s.drop_last().len() && #[trigger] s.drop_last()[i].1
                == lookup(s, k)->0;
            assert(s[i].1 == lookup(s, k)->0);
        }
    } else if s.len() > 0 {
        assert(s[s.len() - 1].1 == s.last().1);
    }
}

impl Default for Input {
    /// A keypad with the default layout.
    fn default() -> (r: Self)
        ensures
            r.keys() == Seq::new(NUM_KEYS as nat, |i: int| false),
            r.forward() == forward_entries(default_pairs()),
    {
        Self::new()
    }
}

impl InputBus for Input {
    open spec fn key_states(&self) -> Seq<bool> {
        self.keys()
    }

    open spec fn next_key(&self) -> Option<u8> {
        keypad_next_key(self.keys(), self.buffer(), self.forward())
    }

    open spec fn key_taken(&self, after: Self) -> bool {
        &&& after.keys() == self.keys()
        &&& after.forward() == self.forward()
        &&& after.reverse() == self.reverse()
        &&& after.pending() == self.pending()
        &&& after.waiting() == self.waiting()
        &&& after.buffer() == if first_pressed(self.keys()) is Some {
            self.buffer()
        } else {
            take_from_buffer(self.buffer(), self.forward()).1
        }
    }

    fn is_key_pressed(&self, key: u8) -> (r: Result<bool, InputError>) {
        if !is_valid_key(key) {
            return Err(InputError::InvalidKey { key });
        }
        Ok(self.key_states[key as usize])
    }

    fn try_get_key_press(&mut self) -> (r: Option<u8>) {
        let mut i: usize = 0;
        while i < NUM_KEYS
            invariant
                i <= NUM_KEYS,
                self.key_states@.len() == NUM_KEYS,
                first_pressed(self.key_states@.subrange(0, i as int)) is None,
            decreases NUM_KEYS - i,
        {
            assert(self.key_states@.subrange(0, i + 1).drop_last() =~= self.key_states@.subrange(
                0,
                i as int,
            ));
            if self.key_states[i] {
                proof {
                    lemma_first_pressed_prefix(self.key_states@, i as int + 1);
                }
                return Some(i as u8);
            }
            i += 1;
        }
        assert(self.key_states@.subrange(0, NUM_KEYS as int) =~= self.key_states@);
        let ghost forward = self.forward();
        let ghost start = self.input_buffer@;
        while self.input_buffer.len() > 0
            invariant
                forward == self.forward(),
                forward == old(self).forward(),
                start == old(self).buffer(),
                self.keys() == old(self).keys(),
                self.reverse() == old(self).reverse(),
                self.pending() == old(self).pending(),
                self.waiting() == old(self).waiting(),
                take_from_buffer(start, forward).0 == take_from_buffer(self.input_buffer@, forward).0,
                take_from_buffer(start, forward).1 == take_from_buffer(self.input_buffer@, forward).1,
                first_pressed(old(self).keys()) is None,
            decreases self.input_buffer@.len(),
        {
            let ch = self.input_buffer.pop().unwrap();
            if let Some(chip8_key_value) = self.get_chip8_key(ch) {
                return Some(chip8_key_value);
            }
        }
        None
    }

    fn update(&mut self)
        ensures
            (final(self).keys(), final(self).buffer()) == apply_events(
                old(self).keys(),
                old(self).buffer(),
                old(self).forward(),
                old(self).pending(),
            ),
            final(self).pending() == Seq::<KeyEvent>::empty(),
            final(self).forward() == old(self).forward(),
            final(self).reverse() == old(self).reverse(),
            final(self).waiting() == old(self).waiting(),
    {
        let mut events: Vec<KeyEvent> = Vec::new();
        std::mem::swap(&mut events, &mut self.pending_events);
        let ghost forward = self.forward();
        let mut i: usize = 0;
        while i < events.len()
            invariant
                i <= events@.len(),
                forward == self.forward(),
                forward == old(self).forward(),
                self.reverse() == old(self).reverse(),
                self.waiting() == old(self).waiting(),
                self.pending() == Seq::<KeyEvent>::empty(),
                events@ == old(self).pending(),
                (self.keys(), self.buffer()) == apply_events(
                    old(self).keys(),
                    old(self).buffer(),
                    forward,
                    events@.subrange(0, i as int),
                ),
            decreases events@.len() - i,
        {
            assert(events@.subrange(0, i + 1).drop_last() =~= events@.subrange(0, i as int));
            match events[i] {
                KeyEvent::Pressed(ch) => self.process_char_input(ch),
                KeyEvent::Released(ch) => self.process_char_release(ch),
            }
            i += 1;
        }
        assert(events@.subrange(0, i as int) =~= events@);
    }

    fn get_pressed_keys(&self) -> (r: Vec<u8>) {
        pressed_keys_of(&self.key_states)
    }
}

/// A pressed key found in a prefix is the first pressed key of the whole.
proof fn lemma_first_pressed_prefix(keys: Seq<bool>, n: int)
    requires
        0 < n <= keys.len(),
        first_pressed(keys.subrange(0, n - 1)) is None,
        keys[n - 1],
    ensures
        first_pressed(keys) == Some((n - 1) as u8),
    decreases keys.len() - n,
{
    if n == keys.len() {
        assert(keys.drop_last() =~= keys.subrange(0, n - 1));
    } else {
        assert(keys.drop_last().subrange(0, n - 1) =~= keys.subrange(0, n - 1));
        lemma_first_pressed_prefix(keys.drop_last(), n);
    }
}

/// Input statistics.
#[derive(Debug, Clone, PartialEq)]
pub struct InputStats {
    /// Number of pressed keys.
    pub pressed_keys: usize,
    /// Number of keypad keys (always 16).
    pub total_keys: usize,
    /// Number of keypad keys with a keyboard key.
    pub mapped_keyboard_keys: usize,
    /// Whether the keypad reports that it waits for input.
    pub waiting_for_input: bool,
}

/// A keypad for tests: keys are pressed and released by calls, and each
/// press is queued for a later key wait.
#[derive(Debug, Clone)]
pub struct MockInput {
    key_states: [bool; NUM_KEYS],
    key_queue: VecDeque<u8>,
}

impl MockInput {
    /// Pressed state of the 16 keys.
    pub closed spec fn keys(&self) -> Seq<bool> {
        self.key_states@
    }

    /// Presses not yet taken, oldest first.
    pub closed spec fn queue(&self) -> Seq<u8> {
        self.key_queue@
    }

    /// No key pressed, nothing queued.
    pub fn new() -> (r: Self)
        ensures
            r.keys() == Seq::new(NUM_KEYS as nat, |i: int| false),
            r.queue() == Seq::<u8>::empty(),
    {
        let r = MockInput { key_states: [false; NUM_KEYS], key_queue: VecDeque::new() };
        assert(r.key_states@ =~= Seq::new(NUM_KEYS as nat, |i: int| false));
        r
    }

    /// Press a key and queue it.
    pub fn press_key(&mut self, key: u8) -> (r: Result<(), InputError>)
        ensures
            key > 15 ==> r == Err::<(), InputError>(InputError::InvalidKey { key }),
            key > 15 ==> final(self).keys() == old(self).keys(),
            key > 15 ==> final(self).queue() == old(self).queue(),
            key <= 15 ==> r is Ok && final(self).keys() == old(self).keys().update(
                key as int,
                true,
            ) && final(self).queue() == old(self).queue().push(key),
    {
        if !is_valid_key(key) {
            return Err(InputError::InvalidKey { key });
        }
        self.key_states[key as usize] = true;
        self.key_queue.push_back(key);
        Ok(())
    }

    /// Release a key.
    pub fn release_key(&mut self, key: u8) -> (r: Result<(), InputError>)
        ensures
            key > 15 ==> r == Err::<(), InputError>(InputError::InvalidKey { key }),
            key <= 15 ==> r is Ok && final(self).keys() == old(self).keys().update(
                key as int,
                false,
            ),
            key > 15 ==> final(self).keys() == old(self).keys(),
            final(self).queue() == old(self).queue(),
    {
        if !is_valid_key(key) {
            return Err(InputError::InvalidKey { key });
        }
        self.key_states[key as usize] = false;
        Ok(())
    }

    /// Release every key and drop queued presses.
    pub fn clear_all(&mut self)
        ensures
            final(self).keys() == Seq::new(NUM_KEYS as nat, |i: int| false),
            final(self).queue() == Seq::<u8>::empty(),
    {
        self.key_states = [false; NUM_KEYS];
        self.key_queue.clear();
        assert(self.key_states@ =~= Seq::new(NUM_KEYS as nat, |i: int| false));
    }
}

impl Default for MockInput {
    /// No key pressed, nothing queued.
    fn default() -> (r: Self)
        ensures
            r.keys() == Seq::new(NUM_KEYS as nat, |i: int| false),
            r.queue() == Seq::<u8>::empty(),
    {
        Self::new()
    }
}

impl InputBus for MockInput {
    open spec fn key_states(&self) -> Seq<bool> {
        self.keys()
    }

    open spec fn next_key(&self) -> Option<u8> {
        if self.queue().len() == 0 {
            None
        } else {
            Some(self.queue()[0])
        }
    }

    open spec fn key_taken(&self, after: Self) -> bool {
        &&& after.keys() == self.keys()
        &&& after.queue() == if self.queue().len() == 0 {
            self.queue()
        } else {
            self.queue().drop_first()
        }
    }

    fn is_key_pressed(&self, key: u8) -> (r: Result<bool, InputError>) {
        if !is_valid_key(key) {
            return Err(InputError::InvalidKey { key });
        }
        Ok(self.key_states[key as usize])
    }

    fn try_get_key_press(&mut self) -> (r: Option<u8>) {
        self.key_queue.pop_front()
    }

    fn update(&mut self) {
    }

    fn get_pressed_keys(&self) -> (r: Vec<u8>) {
        pressed_keys_of(&self.key_states)
    }
}

} // verus!
