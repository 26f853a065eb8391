//! A structured-data value: the payloads of request envelopes and the
//! bodies of outbound calls and remote replies, modelled as plain data
//! so that validation and formatting over them can be verified.

use vstd::prelude::*;
use vstd::string::StrSliceExecFns;

verus! {

broadcast use vstd::std_specs::vec::group_vec_axioms;

/// An untyped structured value: the shape of a request payload or of a
/// remote reply body.  Numbers are modelled as signed 64-bit integers;
/// the process edge maps anything else to text before handing it in.
pub enum JsonVal {
    Null,
    Bool(bool),
    Int(i64),
    Text(String),
    Arr(Vec<JsonVal>),
    Obj(Vec<(String, JsonVal)>),
}

/// The first value bound to `key` among `entries`, if any.
pub open spec fn obj_get(entries: Seq<(String, JsonVal)>, key: Seq<char>) -> Option<JsonVal>
    decreases entries.len(),
{
    if entries.len() == 0 {
        None
    } else if entries[0].0@ == key {
        Some(entries[0].1)
    } else {
        obj_get(entries.drop_first(), key)
    }
}

/// The value bound to `key` when `v` is an object holding it.
pub open spec fn get_spec(v: JsonVal, key: Seq<char>) -> Option<JsonVal> {
    match v {
        JsonVal::Obj(entries) => obj_get(entries@, key),
        _ => None,
    }
}

/// The text content of `v` when `v` is text.
pub open spec fn text_of(v: JsonVal) -> Option<Seq<char>> {
    match v {
        JsonVal::Text(s) => Some(s@),
        _ => None,
    }
}

/// The value of `v` as an unsigned integer, when `v` is a non-negative
/// integer.
pub open spec fn u64_of(v: JsonVal) -> Option<u64> {
    match v {
        JsonVal::Int(i) => if i >= 0 {
            Some(i as u64)
        } else {
            None
        },
        _ => None,
    }
}

/// The truth value of `v` when `v` is a boolean.
pub open spec fn bool_of(v: JsonVal) -> Option<bool> {
    match v {
        JsonVal::Bool(b) => Some(b),
        _ => None,
    }
}

/// The text bound to `key` in `v`, when present and textual.
pub open spec fn get_text_spec(v: JsonVal, key: Seq<char>) -> Option<Seq<char>> {
    match get_spec(v, key) {
        Some(w) => text_of(w),
        None => None,
    }
}

/// The unsigned integer bound to `key` in `v`, when present and in range.
pub open spec fn get_u64_spec(v: JsonVal, key: Seq<char>) -> Option<u64> {
    match get_spec(v, key) {
        Some(w) => u64_of(w),
        None => None,
    }
}

/// The boolean bound to `key` in `v`, when present and boolean.
pub open spec fn get_bool_spec(v: JsonVal, key: Seq<char>) -> Option<bool> {
    match get_spec(v, key) {
        Some(w) => bool_of(w),
        None => None,
    }
}

impl JsonVal {
    /// Looks `key` up when `self` is an object: the first entry with that
    /// name, as `get_spec` gives it.
    pub fn get<'a>(&'a self, key: &str) -> (r: Option<&'a JsonVal>)
        ensures
            match r {
                Some(x) => get_spec(*self, key@) == Some(*x),
                None => get_spec(*self, key@) is None,
            },
    {
        match self {
            JsonVal::Obj(entries) => {
                let key_s: String = key.to_owned();
                let mut k: usize = 0;
                proof {
                    assert(entries@.skip(0) =~= entries@);
                }
                while k < entries.len()
                    invariant
                        0 <= k <= entries@.len(),
                        key_s@ == key@,
                        get_spec(*self, key@) == obj_get(entries@, key@),
                        obj_get(entries@.skip(k as int), key@) == obj_get(entries@, key@),
                    decreases entries@.len() - k,
                {
                    proof {
                        assert(entries@.skip(k as int)[0] == entries@[k as int]);
                        assert(entries@.skip(k as int).drop_first() =~= entries@.skip(
                            (k + 1) as int,
                        ));
                    }
                    if entries[k].0 == key_s {
                        proof {
                            assert(entries@.skip(k as int).len() > 0);
                            assert(entries@.skip(k as int)[0].0@ == key@);
                            assert(obj_get(entries@.skip(k as int), key@) == Some(
                                entries@[k as int].1,
                            ));
                        }
                        return Some(&entries[k].1);
                    }
                    k = k + 1;
                }
                proof {
                    assert(entries@.skip(entries@.len() as int) =~= Seq::<(
                        String,
                        JsonVal,
                    )>::empty());
                }
                None
            },
            _ => None,
        }
    }

    /// The text content when `self` is text.
    pub fn as_text<'a>(&'a self) -> (r: Option<&'a String>)
        ensures
            match r {
                Some(s) => text_of(*self) == Some(s@),
                None => text_of(*self) is None,
            },
    {
        match self {
            JsonVal::Text(s) => Some(s),
            _ => None,
        }
    }

    /// The value as an unsigned integer when `self` is a non-negative
    /// integer.
    pub fn as_u64(&self) -> (r: Option<u64>)
        ensures
            r == u64_of(*self),
    {
        match self {
            JsonVal::Int(i) => if *i >= 0 {
                Some(*i as u64)
            } else {
                None
            },
            _ => None,
        }
    }

    /// The truth value when `self` is a boolean.
    pub fn as_bool(&self) -> (r: Option<bool>)
        ensures
            r == bool_of(*self),
    {
        match self {
            JsonVal::Bool(b) => Some(*b),
            _ => None,
        }
    }

    /// The elements when `self` is an array.
    pub fn as_arr<'a>(&'a self) -> (r: Option<&'a Vec<JsonVal>>)
        ensures
            match r {
                Some(xs) => *self == JsonVal::Arr(*xs),
                None => !(*self is Arr),
            },
    {
        match self {
            JsonVal::Arr(xs) => Some(xs),
            _ => None,
        }
    }

    /// The text bound to `key`, when present and textual.
    pub fn get_text<'a>(&'a self, key: &str) -> (r: Option<&'a String>)
        ensures
            match r {
                Some(s) => get_text_spec(*self, key@) == Some(s@),
                None => get_text_spec(*self, key@) is None,
            },
    {
        match self.get(key) {
            Some(w) => w.as_text(),
            None => None,
        }
    }

    /// The unsigned integer bound to `key`, when present and in range.
    pub fn get_u64(&self, key: &str) -> (r: Option<u64>)
        ensures
            r == get_u64_spec(*self, key@),
    {
        match self.get(key) {
            Some(w) => w.as_u64(),
            None => None,
        }
    }

    /// The boolean bound to `key`, when present and boolean.
    pub fn get_bool(&self, key: &str) -> (r: Option<bool>)
        ensures
            r == get_bool_spec(*self, key@),
    {
        match self.get(key) {
            Some(w) => w.as_bool(),
            None => None,
        }
    }
}

/// The view of an optional string.
pub open spec fn opt_text_view(o: Option<String>) -> Option<Seq<char>> {
    match o {
        Some(s) => Some(s@),
        None => None,
    }
}

/// The views of an optional list of strings.
pub open spec fn opt_strs_view(o: Option<Vec<String>>) -> Option<Seq<Seq<char>>> {
    match o {
        Some(v) => Some(crate::text::str_views(v@)),
        None => None,
    }
}

/// `o`'s content, or the default `d`.
pub open spec fn or_text(o: Option<Seq<char>>, d: Seq<char>) -> Seq<char> {
    match o {
        Some(s) => s,
        None => d,
    }
}

/// `o`'s content, or the default `d`.
pub open spec fn or_u64(o: Option<u64>, d: u64) -> u64 {
    match o {
        Some(n) => n,
        None => d,
    }
}

/// `o`'s content, or the default `d`.
pub open spec fn or_bool(o: Option<bool>, d: bool) -> bool {
    match o {
        Some(b) => b,
        None => d,
    }
}

impl JsonVal {
    /// The text bound to `key`, or the default `d` when absent or not
    /// textual.
    pub fn get_text_or(&self, key: &str, d: &str) -> (r: String)
        ensures
            r@ == or_text(get_text_spec(*self, key@), d@),
    {
        match self.get_text(key) {
            Some(s) => s.clone(),
            None => d.to_owned(),
        }
    }

    /// The unsigned integer bound to `key`, or the default `d`.
    pub fn get_u64_or(&self, key: &str, d: u64) -> (r: u64)
        ensures
            r == or_u64(get_u64_spec(*self, key@), d),
    {
        match self.get_u64(key) {
            Some(n) => n,
            None => d,
        }
    }

    /// The boolean bound to `key`, or the default `d`.
    pub fn get_bool_or(&self, key: &str, d: bool) -> (r: bool)
        ensures
            r == or_bool(get_bool_spec(*self, key@), d),
    {
        match self.get_bool(key) {
            Some(b) => b,
            None => d,
        }
    }
}


/// A lookup hits the first entry carrying the key.
pub proof fn lemma_obj_get_at(es: Seq<(String, JsonVal)>, key: Seq<char>, i: int)
    requires
        0 <= i < es.len(),
        es[i].0@ == key,
        forall|j: int| 0 <= j < i ==> (#[trigger] es[j]).0@ != key,
    ensures
        obj_get(es, key) == Some(es[i].1),
    decreases i,
{
    if i == 0 {
    } else {
        assert(es[0].0@ != key);
        assert forall|j: int| 0 <= j < i - 1 implies (#[trigger] es.drop_first()[j]).0@
            != key by {
            assert(es.drop_first()[j] == es[j + 1]);
        }
        assert(es.drop_first()[i - 1] == es[i]);
        lemma_obj_get_at(es.drop_first(), key, i - 1);
    }
}

/// A lookup misses when no entry carries the key.
pub proof fn lemma_obj_get_none(es: Seq<(String, JsonVal)>, key: Seq<char>)
    requires
        forall|j: int| 0 <= j < es.len() ==> (#[trigger] es[j]).0@ != key,
    ensures
        obj_get(es, key) is None,
    decreases es.len(),
{
    if es.len() > 0 {
        assert forall|j: int| 0 <= j < es.drop_first().len() implies (
        #[trigger] es.drop_first()[j]).0@ != key by {
            assert(es.drop_first()[j] == es[j + 1]);
        }
        lemma_obj_get_none(es.drop_first(), key);
    }
}

/// The hexadecimal digit character for a value below sixteen.
pub open spec fn hex_char(d: nat) -> char
    recommends
        d < 16,
{
    if d < 10 {
        crate::text::digit_char(d)
    } else if d == 10 {
        'a'
    } else if d == 11 {
        'b'
    } else if d == 12 {
        'c'
    } else if d == 13 {
        'd'
    } else if d == 14 {
        'e'
    } else {
        'f'
    }
}

/// The serialized form of one character inside a quoted string: quotes,
/// backslashes and control characters are escaped, everything else
/// stands for itself.
pub open spec fn esc_char(c: char) -> Seq<char> {
    if c == '"' {
        seq!['\\', '"']
    } else if c == '\\' {
        seq!['\\', '\\']
    } else if c == '\n' {
        seq!['\\', 'n']
    } else if c == '\r' {
        seq!['\\', 'r']
    } else if c == '\t' {
        seq!['\\', 't']
    } else if (c as u32) < 32 {
        seq!['\\', 'u', '0', '0', hex_char((c as u32 / 16) as nat), hex_char(
            (c as u32 % 16) as nat,
        )]
    } else {
        seq![c]
    }
}

/// The serialized form of a string body, character by character.
pub open spec fn esc_str(s: Seq<char>) -> Seq<char>
    decreases s.len(),
{
    if s.len() == 0 {
        Seq::<char>::empty()
    } else {
        esc_str(s.drop_last()) + esc_char(s.last())
    }
}

/// The serialized text of a value.
pub open spec fn json_str(v: JsonVal) -> Seq<char>
    decreases v,
{
    match v {
        JsonVal::Null => seq!['n', 'u', 'l', 'l'],
        JsonVal::Bool(b) => if b {
            seq!['t', 'r', 'u', 'e']
        } else {
            seq!['f', 'a', 'l', 's', 'e']
        },
        JsonVal::Int(i) => crate::text::dec_str_int(i as int),
        JsonVal::Text(s) => seq!['"'] + esc_str(s@) + seq!['"'],
        JsonVal::Arr(xs) => seq!['['] + json_list(xs@) + seq![']'],
        JsonVal::Obj(es) => seq!['{'] + json_entries(es@) + seq!['}'],
    }
}

/// The serialized elements of an array, comma separated.
pub open spec fn json_list(xs: Seq<JsonVal>) -> Seq<char>
    decreases xs,
{
    if xs.len() == 0 {
        Seq::<char>::empty()
    } else if xs.len() == 1 {
        json_str(xs.last())
    } else {
        json_list(xs.drop_last()) + seq![','] + json_str(xs.last())
    }
}

/// The serialized entries of an object, comma separated, each a quoted
/// key, a colon and a value.
pub open spec fn json_entries(es: Seq<(String, JsonVal)>) -> Seq<char>
    decreases es,
{
    if es.len() == 0 {
        Seq::<char>::empty()
    } else if es.len() == 1 {
        json_entry(es.last())
    } else {
        json_entries(es.drop_last()) + seq![','] + json_entry(es.last())
    }
}

/// The serialized form of a single object entry.
pub open spec fn json_entry(e: (String, JsonVal)) -> Seq<char>
    decreases e,
{
    seq!['"'] + esc_str(e.0@) + seq!['"', ':'] + json_str(e.1)
}

fn hex_digit(d: u32) -> (c: char)
    requires
        d < 16,
    ensures
        c == hex_char(d as nat),
{
    if d < 10 {
        crate::text::digit_to_char(d as u64)
    } else if d == 10 {
        'a'
    } else if d == 11 {
        'b'
    } else if d == 12 {
        'c'
    } else if d == 13 {
        'd'
    } else if d == 14 {
        'e'
    } else {
        'f'
    }
}

fn push_escaped(out: &mut Vec<char>, c: char)
    ensures
        final(out)@ == old(out)@ + esc_char(c),
{
    if c == '"' {
        out.push('\\');
        out.push('"');
    } else if c == '\\' {
        out.push('\\');
        out.push('\\');
    } else if c == '\n' {
        out.push('\\');
        out.push('n');
    } else if c == '\r' {
        out.push('\\');
        out.push('r');
    } else if c == '\t' {
        out.push('\\');
        out.push('t');
    } else if (c as u32) < 32 {
        out.push('\\');
        out.push('u');
        out.push('0');
        out.push('0');
        let x: u32 = c as u32;
        out.push(hex_digit(x / 16));
        out.push(hex_digit(x % 16));
    } else {
        out.push(c);
    }
    proof {
        assert(out@ =~= old(out)@ + esc_char(c));
    }
}

#[verifier::loop_isolation(false)]
fn write_escaped(out: &mut Vec<char>, s: &str)
    ensures
        final(out)@ == old(out)@ + esc_str(s@),
{
    let n: usize = s.unicode_len();
    let mut k: usize = 0;
    while k < n
        invariant
            0 <= k <= s@.len(),
            out@ == old(out)@ + esc_str(s@.take(k as int)),
        decreases n - k,
    {
        let c: char = s.get_char(k);
        push_escaped(out, c);
        proof {
            assert(s@.take((k + 1) as int).drop_last() =~= s@.take(k as int));
            assert(s@.take((k + 1) as int).last() == c);
        }
        k = k + 1;
    }
    proof {
        assert(s@.take(s@.len() as int) =~= s@);
    }
}

/// Writes the serialized text of `v` after the current contents of
/// `out`.
#[verifier::loop_isolation(false)]
#[verifier::rlimit(60)]
pub fn write_json(v: &JsonVal, out: &mut Vec<char>)
    ensures
        final(out)@ == old(out)@ + json_str(*v),
    decreases *v,
{
    match v {
        JsonVal::Null => {
            out.push('n');
            out.push('u');
            out.push('l');
            out.push('l');
            proof {
                assert(out@ =~= old(out)@ + json_str(*v));
            }
        },
        JsonVal::Bool(b) => {
            if *b {
                out.push('t');
                out.push('r');
                out.push('u');
                out.push('e');
            } else {
                out.push('f');
                out.push('a');
                out.push('l');
                out.push('s');
                out.push('e');
            }
            proof {
                assert(out@ =~= old(out)@ + json_str(*v));
            }
        },
        JsonVal::Int(i) => {
            if *i < 0 {
                out.push('-');
                let mag: u64 = (-(*i as i128)) as u64;
                let mut digits: Vec<char> = crate::text::u64_to_dec_chars(mag);
                out.append(&mut digits);
            } else {
                let mut digits: Vec<char> = crate::text::u64_to_dec_chars(*i as u64);
                out.append(&mut digits);
            }
            proof {
                assert(out@ =~= old(out)@ + json_str(*v));
            }
        },
        JsonVal::Text(s) => {
            out.push('"');
            write_escaped(out, s.as_str());
            out.push('"');
            proof {
                assert(out@ =~= old(out)@ + json_str(*v));
            }
        },
        JsonVal::Arr(xs) => {
            out.push('[');
            let mut k: usize = 0;
            while k < xs.len()
                invariant
                    0 <= k <= xs@.len(),
                    out@ == old(out)@ + seq!['['] + json_list(xs@.take(k as int)),
                decreases xs@.len() - k,
            {
                if k > 0 {
                    out.push(',');
                }
                proof {
                    assert(decreases_to!(*v => xs@[k as int]));
                    assert(xs@.take((k + 1) as int).drop_last() =~= xs@.take(k as int));
                    assert(xs@.take((k + 1) as int).last() == xs@[k as int]);
                }
                write_json(&xs[k], out);
                k = k + 1;
            }
            out.push(']');
            proof {
                assert(xs@.take(xs@.len() as int) =~= xs@);
                assert(out@ =~= old(out)@ + json_str(*v));
            }
        },
        JsonVal::Obj(es) => {
            out.push('{');
            let mut k: usize = 0;
            while k < es.len()
                invariant
                    0 <= k <= es@.len(),
                    out@ == old(out)@ + seq!['{'] + json_entries(es@.take(k as int)),
                decreases es@.len() - k,
            {
                if k > 0 {
                    out.push(',');
                }
                out.push('"');
                write_escaped(out, es[k].0.as_str());
                out.push('"');
                out.push(':');
                proof {
                    assert(decreases_to!(*v => es@[k as int].1));
                    assert(es@.take((k + 1) as int).drop_last() =~= es@.take(k as int));
                    assert(es@.take((k + 1) as int).last() == es@[k as int]);
                }
                write_json(&es[k].1, out);
                proof {
                    assert(json_entry(es@[k as int]) == seq!['"'] + esc_str(es@[k as int].0@)
                        + seq!['"', ':'] + json_str(es@[k as int].1));
                    if k > 0 {
                        assert(json_entries(es@.take((k + 1) as int)) == json_entries(
                            es@.take(k as int),
                        ) + seq![','] + json_entry(es@[k as int]));
                    } else {
                        assert(json_entries(es@.take(1)) == json_entry(es@[0]));
                    }
                    assert(out@ =~= old(out)@ + seq!['{'] + json_entries(
                        es@.take((k + 1) as int),
                    ));
                }
                k = k + 1;
            }
            out.push('}');
            proof {
                assert(es@.take(es@.len() as int) =~= es@);
                assert(out@ =~= old(out)@ + json_str(*v));
            }
        },
    }
}

impl JsonVal {
    /// The serialized text of the value.
    pub fn to_text(&self) -> (r: String)
        ensures
            r@ == json_str(*self),
    {
        let mut out: Vec<char> = Vec::new();
        write_json(self, &mut out);
        crate::text::string_from_chars(&out)
    }
}

} // verus!
