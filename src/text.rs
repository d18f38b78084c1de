//! Character-level helpers over message text: whitespace, prefixes, the
//! command argument, trimming and the stack-trace normalisation.
use vstd::prelude::*;

verus! {

/// The Unicode `White_Space` property, which `char::is_whitespace` follows.
pub open spec fn is_space(c: char) -> bool {
    let u = c as u32;
    (0x9 <= u && u <= 0xd) || u == 0x20 || u == 0x85 || u == 0xa0 || u == 0x1680 || (0x2000
        <= u && u <= 0x200a) || u == 0x2028 || u == 0x2029 || u == 0x202f || u == 0x205f || u
        == 0x3000
}

/// First index at or after `i` that holds whitespace, or the length.
pub open spec fn scan_word(s: Seq<char>, i: int) -> int
    decreases s.len() - i,
{
    if 0 <= i < s.len() && !is_space(s[i]) {
        scan_word(s, i + 1)
    } else {
        i
    }
}

/// First index at or after `i` that holds no whitespace, or the length.
pub open spec fn scan_space(s: Seq<char>, i: int) -> int
    decreases s.len() - i,
{
    if 0 <= i < s.len() && is_space(s[i]) {
        scan_space(s, i + 1)
    } else {
        i
    }
}

/// Last index `j <= i` such that `s[j - 1]` holds no whitespace, or 0.
pub open spec fn scan_space_back(s: Seq<char>, i: int) -> int
    decreases i,
{
    if 0 < i <= s.len() && is_space(s[i - 1]) {
        scan_space_back(s, i - 1)
    } else {
        i
    }
}

/// The text after the first word and the whitespace run that follows it.
pub open spec fn argument_of(s: Seq<char>) -> Seq<char> {
    s.subrange(scan_space(s, scan_word(s, 0)), s.len() as int)
}

/// The text without leading and trailing whitespace.
pub open spec fn trimmed(s: Seq<char>) -> Seq<char> {
    let a = scan_space(s, 0);
    let b = scan_space_back(s, s.len() as int);
    if a < b {
        s.subrange(a, b)
    } else {
        Seq::empty()
    }
}

pub open spec fn has_prefix(s: Seq<char>, p: Seq<char>) -> bool {
    p.len() <= s.len() && s.subrange(0, p.len() as int) == p
}

pub fn is_space_char(c: char) -> (r: bool)
    ensures
        r == is_space(c),
{
    let u = c as u32;
    (0x9 <= u && u <= 0xd) || u == 0x20 || u == 0x85 || u == 0xa0 || u == 0x1680 || (0x2000
        <= u && u <= 0x200a) || u == 0x2028 || u == 0x2029 || u == 0x202f || u == 0x205f || u
        == 0x3000
}

/// The characters of `s`, one by one.
pub fn chars_of(s: &str) -> (r: Vec<char>)
    ensures
        r@ == s@,
{
    let n = s.unicode_len();
    let mut out: Vec<char> = Vec::new();
    let mut i: usize = 0;
    while i < n
        invariant
            n == s@.len(),
            i <= n,
            out@ == s@.subrange(0, i as int),
        decreases n - i,
    {
        out.push(s.get_char(i));
        i = i + 1;
        assert(out@ =~= s@.subrange(0, i as int));
    }
    assert(out@ =~= s@);
    out
}

pub fn starts_with(s: &Vec<char>, p: &str) -> (r: bool)
    ensures
        r == has_prefix(s@, p@),
{
    let m = p.unicode_len();
    if m > s.len() {
        return false;
    }
    let mut i: usize = 0;
    while i < m
        invariant
            m == p@.len(),
            m <= s@.len(),
            i <= m,
            s@.subrange(0, i as int) == p@.subrange(0, i as int),
        decreases m - i,
    {
        if s[i] != p.get_char(i) {
            assert(s@.subrange(0, m as int)[i as int] != p@[i as int]);
            return false;
        }
        i = i + 1;
        assert(s@.subrange(0, i as int) =~= p@.subrange(0, i as int));
    }
    assert(p@.subrange(0, m as int) =~= p@);
    true
}

fn skip_word(s: &Vec<char>, start: usize) -> (r: usize)
    requires
        start <= s@.len(),
    ensures
        r as int == scan_word(s@, start as int),
{
    let mut i = start;
    while i < s.len() && !is_space_char(s[i])
        invariant
            start <= i <= s@.len(),
            scan_word(s@, i as int) == scan_word(s@, start as int),
        decreases s@.len() - i,
    {
        i = i + 1;
    }
    i
}

fn skip_space(s: &Vec<char>, start: usize) -> (r: usize)
    requires
        start <= s@.len(),
    ensures
        r as int == scan_space(s@, start as int),
        start <= r <= s@.len(),
{
    let mut i = start;
    while i < s.len() && is_space_char(s[i])
        invariant
            start <= i <= s@.len(),
            scan_space(s@, i as int) == scan_space(s@, start as int),
        decreases s@.len() - i,
    {
        i = i + 1;
    }
    i
}

fn skip_space_back(s: &Vec<char>) -> (r: usize)
    ensures
        r as int == scan_space_back(s@, s@.len() as int),
        r <= s@.len(),
{
    let mut i = s.len();
    while i > 0 && is_space_char(s[i - 1])
        invariant
            i <= s@.len(),
            scan_space_back(s@, i as int) == scan_space_back(s@, s@.len() as int),
        decreases i,
    {
        i = i - 1;
    }
    i
}

/// The argument of a command: what follows its first whitespace run.
pub fn argument(text: &str) -> (r: String)
    ensures
        r@ == argument_of(text@),
{
    let cs = chars_of(text);
    let w = skip_word(&cs, 0);
    proof {
        lemma_scan_word_bounds(text@, 0);
    }
    let a = skip_space(&cs, w);
    String::from_str(text.substring_char(a, cs.len()))
}

pub fn trim(text: &str) -> (r: String)
    ensures
        r@ == trimmed(text@),
{
    let cs = chars_of(text);
    let a = skip_space(&cs, 0);
    let b = skip_space_back(&cs);
    if a < b {
        String::from_str(text.substring_char(a, b))
    } else {
        String::new()
    }
}

proof fn lemma_scan_word_bounds(s: Seq<char>, i: int)
    requires
        0 <= i <= s.len(),
    ensures
        i <= scan_word(s, i) <= s.len(),
    decreases s.len() - i,
{
    if i < s.len() && !is_space(s[i]) {
        lemma_scan_word_bounds(s, i + 1);
    }
}

/// The wrapper that Python prints around top-level frames of a stack trace.
pub open spec fn module_tag() -> Seq<char> {
    seq!['<', 'm', 'o', 'd', 'u', 'l', 'e', '>']
}

pub open spec fn module_word() -> Seq<char> {
    seq!['m', 'o', 'd', 'u', 'l', 'e']
}

/// Every occurrence of `module_tag()`, taken from left to right without
/// overlap, replaced by `module_word()`.
pub open spec fn normalized(s: Seq<char>) -> Seq<char>
    decreases s.len(),
{
    if s.len() == 0 {
        s
    } else if has_prefix(s, module_tag()) {
        module_word() + normalized(s.subrange(8, s.len() as int))
    } else {
        seq![s[0]] + normalized(s.subrange(1, s.len() as int))
    }
}

fn tag_at(cs: &Vec<char>, i: usize) -> (r: bool)
    requires
        i <= cs@.len(),
    ensures
        r == has_prefix(cs@.subrange(i as int, cs@.len() as int), module_tag()),
{
    let ghost t = cs@.subrange(i as int, cs@.len() as int);
    if cs.len() - i < 8 {
        return false;
    }
    let r = cs[i] == '<' && cs[i + 1] == 'm' && cs[i + 2] == 'o' && cs[i + 3] == 'd' && cs[i
        + 4] == 'u' && cs[i + 5] == 'l' && cs[i + 6] == 'e' && cs[i + 7] == '>';
    proof {
        if r {
            assert(t.subrange(0, 8) =~= module_tag());
        }
        if has_prefix(t, module_tag()) {
            assert(t.subrange(0, 8)[0] == '<');
            assert(t.subrange(0, 8)[1] == 'm');
            assert(t.subrange(0, 8)[2] == 'o');
            assert(t.subrange(0, 8)[3] == 'd');
            assert(t.subrange(0, 8)[4] == 'u');
            assert(t.subrange(0, 8)[5] == 'l');
            assert(t.subrange(0, 8)[6] == 'e');
            assert(t.subrange(0, 8)[7] == '>');
        }
    }
    r
}

/// Replaces each `<module>` by `module`, as `str::replace` does.
pub fn normalize(text: &str) -> (r: String)
    ensures
        r@ == normalized(text@),
{
    let cs = chars_of(text);
    let n = cs.len();
    let ghost s = text@;
    let mut out = String::new();
    let mut start: usize = 0;
    let mut i: usize = 0;
    assert(s.subrange(0, n as int) =~= s);
    while i < n
        invariant
            n == s.len(),
            cs@ == s,
            text@ == s,
            start <= i <= n,
            out@ + s.subrange(start as int, i as int) + normalized(s.subrange(i as int, n as int))
                == normalized(s),
        decreases n - i,
    {
        let ghost t = s.subrange(i as int, n as int);
        if tag_at(&cs, i) {
            assert(t.subrange(8, t.len() as int) =~= s.subrange(i + 8, n as int));
            out.append(text.substring_char(start, i));
            proof {
                reveal_strlit("module");
                assert("module"@ =~= module_word());
            }
            out.append("module");
            i = i + 8;
            start = i;
            assert(s.subrange(start as int, i as int) =~= Seq::<char>::empty());
        } else {
            assert(t.subrange(1, t.len() as int) =~= s.subrange(i + 1, n as int));
            assert(s.subrange(start as int, i as int) + seq![s[i as int]] =~= s.subrange(
                start as int,
                i + 1,
            ));
            i = i + 1;
        }
    }
    assert(s.subrange(n as int, n as int) =~= Seq::<char>::empty());
    out.append(text.substring_char(start, n));
    assert(out@ =~= normalized(s));
    out
}

} // verus!
