//! Configuration entries for the address-naming scheme.
//!
//! An entry names a voice (its OSC base address and entry type), its
//! parameter names, and — for drum-kit style entries — a key-number to
//! key-name table.  Entries arrive from an external JSON loader with string
//! key numbers; [`try_from`] converts them to byte-keyed entries, rejecting a
//! key that is not a small decimal number.

use vstd::prelude::*;

verus! {

/// How an entry routes note and channel messages.
#[derive(Debug, Clone, Copy, PartialEq, Eq, Structural)]
pub enum EntryType {
    Mono,
    Poly,
    Drum,
    Param,
}

/// One configuration entry.  `T` is the key type of the key-name table:
/// strings as deserialized, bytes once converted.
#[derive(Debug, Clone)]
pub struct JsonEntry<T> {
    pub entry_type: EntryType,
    pub name: String,
    pub address: String,
    pub params: Vec<String>,
    pub keys: Option<Vec<(T, String)>>,
}

/// An entry ready for use: key-name table keyed by MIDI key number.
pub type Entry = JsonEntry<u8>;

/// A conversion failure: a key of the key-name table is not a decimal number
/// of at most three digits below 256.
#[derive(Debug, Clone, Copy, PartialEq, Eq, Structural)]
pub enum ConfigError {
    InvalidKey,
}

/// Whether `c` is a decimal digit.
pub open spec fn spec_is_digit(c: char) -> bool {
    c == '0' || c == '1' || c == '2' || c == '3' || c == '4' || c == '5' || c == '6' || c == '7'
        || c == '8' || c == '9'
}

/// The value of a decimal digit.
pub open spec fn spec_digit_val(c: char) -> nat
    recommends
        spec_is_digit(c),
{
    if c == '0' {
        0
    } else if c == '1' {
        1
    } else if c == '2' {
        2
    } else if c == '3' {
        3
    } else if c == '4' {
        4
    } else if c == '5' {
        5
    } else if c == '6' {
        6
    } else if c == '7' {
        7
    } else if c == '8' {
        8
    } else {
        9
    }
}

/// The value of a digit string, most significant digit first.
pub open spec fn spec_digits_val(s: Seq<char>) -> nat
    decreases s.len(),
{
    if s.len() == 0 {
        0
    } else {
        spec_digits_val(s.drop_last()) * 10 + spec_digit_val(s.last())
    }
}

/// What a key string parses to: a byte, if the string is one to three
/// decimal digits whose value is below 256; nothing otherwise.
pub open spec fn spec_parse_u8(s: Seq<char>) -> Option<u8> {
    if 1 <= s.len() <= 3 && (forall|i: int| 0 <= i < s.len() ==> spec_is_digit(s[i]))
        && spec_digits_val(s) <= 255 {
        Some(spec_digits_val(s) as u8)
    } else {
        None
    }
}

fn digit_val(c: char) -> (r: Option<u8>)
    ensures
        (match r {
            Some(d) => spec_is_digit(c) && d == spec_digit_val(c) && d <= 9,
            None => !spec_is_digit(c),
        }),
{
    if c == '0' {
        Some(0)
    } else if c == '1' {
        Some(1)
    } else if c == '2' {
        Some(2)
    } else if c == '3' {
        Some(3)
    } else if c == '4' {
        Some(4)
    } else if c == '5' {
        Some(5)
    } else if c == '6' {
        Some(6)
    } else if c == '7' {
        Some(7)
    } else if c == '8' {
        Some(8)
    } else if c == '9' {
        Some(9)
    } else {
        None
    }
}

/// Parse a key string as a decimal byte.
pub fn parse_u8_key(s: &str) -> (r: Option<u8>)
    ensures
        r == spec_parse_u8(s@),
{
    let n = s.unicode_len();
    if n < 1 || n > 3 {
        return None;
    }
    let mut value: u16 = 0;
    let mut i: usize = 0;
    while i < n
        invariant
            0 <= i <= n,
            1 <= n <= 3,
            n == s@.len(),
            forall|j: int| 0 <= j < i ==> spec_is_digit(s@[j]),
            value == spec_digits_val(s@.take(i as int)),
            i == 0 ==> value == 0,
            i == 1 ==> value <= 9,
            i == 2 ==> value <= 99,
            i == 3 ==> value <= 999,
        decreases n - i,
    {
        let c = s.get_char(i);
        match digit_val(c) {
            Some(d) => {
                proof {
                    assert(s@.take(i + 1 as int).drop_last() =~= s@.take(i as int));
                }
                value = value * 10 + (d as u16);
            },
            None => {
                return None;
            },
        }
        i = i + 1;
    }
    proof {
        assert(s@.take(n as int) =~= s@);
    }
    if value <= 255 {
        Some(value as u8)
    } else {
        None
    }
}

/// First-match lookup in a key-name table.
pub open spec fn spec_lookup(keys: Seq<(u8, String)>, k: u8) -> Option<Seq<char>>
    decreases keys.len(),
{
    if keys.len() == 0 {
        None
    } else if keys[0].0 == k {
        Some(keys[0].1@)
    } else {
        spec_lookup(keys.skip(1), k)
    }
}

/// Look a MIDI key number up in a key-name table.
pub fn lookup_key<'a>(keys: &'a Vec<(u8, String)>, k: u8) -> (r: Option<&'a String>)
    ensures
        (match r {
            Some(name) => spec_lookup(keys@, k) == Some(name@),
            None => spec_lookup(keys@, k) is None,
        }),
{
    let mut i: usize = 0;
    proof {
        assert(keys@.skip(0) =~= keys@);
    }
    while i < keys.len()
        invariant
            0 <= i <= keys@.len(),
            spec_lookup(keys@.skip(i as int), k) == spec_lookup(keys@, k),
        decreases keys@.len() - i,
    {
        proof {
            assert(keys@.skip(i as int)[0] == keys@[i as int]);
            assert(keys@.skip(i as int).skip(1) =~= keys@.skip(i as int + 1));
        }
        if keys[i].0 == k {
            return Some(&keys[i].1);
        }
        i = i + 1;
    }
    proof {
        assert(keys@.skip(i as int) =~= Seq::<(u8, String)>::empty());
    }
    None
}

/// What converting a string-keyed table yields: every key parsed in order,
/// or a failure if any key does not parse.
pub open spec fn spec_convert_keys(keys: Seq<(String, String)>) -> Result<
    Seq<(u8, String)>,
    ConfigError,
>
    decreases keys.len(),
{
    if keys.len() == 0 {
        Ok(Seq::empty())
    } else {
        match spec_convert_keys(keys.drop_last()) {
            Ok(rest) => match spec_parse_u8(keys.last().0@) {
                Some(k) => Ok(rest.push((k, keys.last().1))),
                None => Err(ConfigError::InvalidKey),
            },
            Err(e) => Err(e),
        }
    }
}

/// Convert a deserialized entry with string key numbers into a byte-keyed
/// [`Entry`].  Fails if and only if some key of the key-name table is not a
/// decimal byte.
#[verifier::loop_isolation(false)]
pub fn try_from(entry: JsonEntry<String>) -> (r: Result<Entry, ConfigError>)
    ensures
        (match entry.keys {
            Option::None => (match r {
                Ok(e) => e.entry_type == entry.entry_type && e.name@ == entry.name@
                    && e.address@ == entry.address@ && e.params@ == entry.params@
                    && e.keys is None,
                Err(_) => false,
            }),
            Option::Some(ks) => (match r {
                Ok(e) => e.entry_type == entry.entry_type && e.name@ == entry.name@
                    && e.address@ == entry.address@ && e.params@ == entry.params@
                    && (match e.keys {
                    Option::Some(converted) => spec_convert_keys(ks@) == Ok::<
                        Seq<(u8, String)>,
                        ConfigError,
                    >(converted@),
                    Option::None => false,
                }),
                Err(err) => spec_convert_keys(ks@) == Err::<Seq<(u8, String)>, ConfigError>(err),
            }),
        }),
{
    let ghost entry0 = entry;
    let JsonEntry { entry_type, name, address, params, keys } = entry;
    proof {
        assert(entry0.keys == keys);
        assert(entry0.entry_type == entry_type);
        assert(entry0.name == name);
        assert(entry0.address == address);
        assert(entry0.params == params);
    }
    match &keys {
        Option::None => Ok(JsonEntry { entry_type, name, address, params, keys: Option::None }),
        Option::Some(ks) => {
            proof {
                assert(keys == Option::Some(*ks));
            }
            let mut converted: Vec<(u8, String)> = Vec::new();
            let mut i: usize = 0;
            let ghost ks0 = ks@;
            while i < ks.len()
                invariant
                    0 <= i <= ks@.len(),
                    ks@ == ks0,
                    spec_convert_keys(ks0.take(i as int)) == Ok::<Seq<(u8, String)>, ConfigError>(
                        converted@),
                decreases ks@.len() - i,
            {
                let key_num = match parse_u8_key(ks[i].0.as_str()) {
                    Some(k) => k,
                    None => {
                        proof {
                            lemma_convert_keys_err(ks0, i as int);
                        }
                        return Err(ConfigError::InvalidKey);
                    },
                };
                let key_name = ks[i].1.clone();
                converted.push((key_num, key_name));
                proof {
                    assert(ks0.take(i + 1 as int).drop_last() =~= ks0.take(i as int));
                    assert(ks0.take(i + 1 as int).last() == ks0[i as int]);
                }
                i = i + 1;
            }
            proof {
                assert(ks0.take(ks0.len() as int) =~= ks0);
            }
            Ok(JsonEntry { entry_type, name, address, params, keys: Option::Some(converted) })
        },
    }
}

/// If some key fails to parse, the whole conversion fails, whatever follows
/// it.
proof fn lemma_convert_keys_err(keys: Seq<(String, String)>, i: int)
    requires
        0 <= i < keys.len(),
        spec_parse_u8(keys[i].0@) is None,
        spec_convert_keys(keys.take(i)) is Ok,
    ensures
        spec_convert_keys(keys) == Err::<Seq<(u8, String)>, ConfigError>(ConfigError::InvalidKey),
    decreases keys.len(),
{
    if keys.len() == i + 1 {
        assert(keys.drop_last() =~= keys.take(i));
        assert(keys.last() == keys[i]);
    } else {
        assert(keys.drop_last().take(i) =~= keys.take(i));
        lemma_convert_keys_err(keys.drop_last(), i);
    }
}

} // verus!
