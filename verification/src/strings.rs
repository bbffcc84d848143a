use vstd::prelude::*;
use vstd::string::StrSliceExecFns;

verus! {

/// Whether two string slices hold the same characters.
pub fn str_eq(a: &str, b: &str) -> (r: bool)
    ensures
        r <==> a@ == b@,
{
    let a_len = a.unicode_len();
    let b_len = b.unicode_len();
    if a_len != b_len {
        return false;
    }
    for i in 0..a_len
        invariant
            a_len == a@.len(),
            a_len == b@.len(),
            forall|j: int| 0 <= j < i ==> a@[j] == b@[j],
    {
        if a.get_char(i) != b.get_char(i) {
            return false;
        }
    }
    proof {
        assert(a@ =~= b@);
    }
    true
}

/// Relies on std's String::push: appends the given character to the end of
/// the string.
pub assume_specification[ String::push ](s: &mut String, c: char)
    ensures
        final (s)@ == old(s)@ + seq![c],
;

/// The lower-case hexadecimal digit for a value below sixteen.
pub open spec fn spec_hex_digit(v: int) -> char {
    seq!['0', '1', '2', '3', '4', '5', '6', '7', '8', '9', 'a', 'b', 'c', 'd', 'e', 'f'][v]
}

/// How one character reads inside a JSON string literal: quotes and
/// backslashes gain a backslash, control characters become `\u00xx`
/// escapes, and every other character stands as itself.
pub open spec fn spec_escaped_char(c: char) -> Seq<char> {
    if c == '"' {
        seq!['\\', '"']
    } else if c == '\\' {
        seq!['\\', '\\']
    } else if (c as u32) < 0x20 {
        seq!['\\', 'u', '0', '0', spec_hex_digit((c as u32) as int / 16), spec_hex_digit(
            (c as u32) as int % 16,
        )]
    } else {
        seq![c]
    }
}

/// How a whole string reads inside a JSON string literal.
pub open spec fn spec_escaped(s: Seq<char>) -> Seq<char>
    decreases s.len(),
{
    if s.len() == 0 {
        Seq::empty()
    } else {
        spec_escaped_char(s[0]) + spec_escaped(s.drop_first())
    }
}

fn hex_digit(v: u32) -> (r: char)
    requires
        v < 16,
    ensures
        r == spec_hex_digit(v as int),
{
    let digits = ['0', '1', '2', '3', '4', '5', '6', '7', '8', '9', 'a', 'b', 'c', 'd', 'e', 'f'];
    digits[v as usize]
}

/// Appends one character to `out` in its JSON string-literal form.
fn push_escaped_char(out: &mut String, c: char)
    ensures
        final(out)@ == old(out)@ + spec_escaped_char(c),
{
    if c == '"' {
        out.push('\\');
        out.push('"');
    } else if c == '\\' {
        out.push('\\');
        out.push('\\');
    } else if (c as u32) < 0x20 {
        out.push('\\');
        out.push('u');
        out.push('0');
        out.push('0');
        out.push(hex_digit((c as u32) / 16));
        out.push(hex_digit((c as u32) % 16));
    } else {
        out.push(c);
    }
}

/// Appends `s` to `out` in its JSON string-literal form, so that the result
/// may stand between double quotes in a JSON document.
pub fn append_json_escaped(out: &mut String, s: &str)
    ensures
        final(out)@ == old(out)@ + spec_escaped(s@),
{
    let len = s.unicode_len();
    proof {
        assert(s@.skip(0) == s@);
    }
    for i in 0..len
        invariant
            len == s@.len(),
            out@ == old(out)@ + spec_escaped(s@.take(i as int)),
    {
        let c = s.get_char(i);
        push_escaped_char(out, c);
        proof {
            lemma_escaped_snoc(s@, i as int);
        }
    }
    proof {
        assert(s@.take(len as int) == s@);
    }
}

proof fn lemma_escaped_snoc(s: Seq<char>, i: int)
    requires
        0 <= i < s.len(),
    ensures
        spec_escaped(s.take(i + 1)) == spec_escaped(s.take(i)) + spec_escaped_char(s[i]),
    decreases i,
{
    if i == 0 {
        assert(s.take(1) =~= seq![s[0]]);
        assert(s.take(1).drop_first() =~= Seq::<char>::empty());
        assert(spec_escaped(s.take(1)) == spec_escaped_char(s.take(1)[0]) + spec_escaped(
            s.take(1).drop_first(),
        ));
        assert(s.take(1)[0] == s[0]);
        assert(spec_escaped_char(s[0]) + Seq::<char>::empty() =~= spec_escaped_char(s[0]));
        assert(s.take(0) =~= Seq::<char>::empty());
        assert(Seq::<char>::empty() + spec_escaped_char(s[0]) =~= spec_escaped_char(s[0]));
    } else {
        lemma_escaped_snoc(s.drop_first(), i - 1);
        assert(s.take(i + 1).drop_first() =~= s.drop_first().take(i));
        assert(s.take(i).drop_first() =~= s.drop_first().take(i - 1));
        assert(s.take(i + 1)[0] == s[0]);
        assert(s.take(i)[0] == s[0]);
        assert(s.drop_first()[i - 1] == s[i]);
        assert(spec_escaped(s.take(i + 1)) == spec_escaped_char(s[0]) + spec_escaped(
            s.drop_first().take(i),
        ));
        assert(spec_escaped_char(s[0]) + (spec_escaped(s.drop_first().take(i - 1))
            + spec_escaped_char(s[i])) =~= (spec_escaped_char(s[0]) + spec_escaped(
            s.drop_first().take(i - 1),
        )) + spec_escaped_char(s[i]));
    }
}

} // verus!
