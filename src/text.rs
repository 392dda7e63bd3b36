use vstd::prelude::*;
use vstd::std_specs::iter::IteratorSpec;

verus! {

/// The characters of a string, in order.
pub(crate) fn chars_of(s: &str) -> (r: Vec<char>)
    ensures
        r@ == s@,
{
    broadcast use vstd::string::axiom_spec_iter, vstd::string::next_postcondition;
    let mut it = s.chars();
    let mut out: Vec<char> = Vec::new();
    loop
        invariant
            out@ + it.remaining() == s@,
            it.decrease() is Some,
        ensures
            out@ == s@,
        decreases it.decrease()->0,
    {
        let ghost before = it.remaining();
        match it.next() {
            Some(c) => {
                out.push(c);
                assert(out@ + it.remaining() =~= s@) by {
                    assert(before =~= seq![c] + it.remaining());
                }
            },
            None => {
                assert(out@ =~= s@);
                break;
            },
        }
    }
    out
}

/// Relies on String's FromIterator over chars: the string of those characters.
#[verifier::external_body]
pub(crate) fn string_of(v: &Vec<char>) -> (r: String)
    ensures
        r@ == v@,
{
    v.iter().collect()
}

/// Unicode White_Space, the set that `char::is_whitespace` tests.
pub open spec fn is_ws(c: char) -> bool {
    let u = c as u32;
    (0x09 <= u && u <= 0x0d) || u == 0x20 || u == 0x85 || u == 0xa0 || u == 0x1680
        || (0x2000 <= u && u <= 0x200a) || u == 0x2028 || u == 0x2029 || u == 0x202f
        || u == 0x205f || u == 0x3000
}

/// The characters of `s` that are not whitespace, in order.
pub open spec fn strip_ws(s: Seq<char>) -> Seq<char>
    decreases s.len(),
{
    if s.len() == 0 {
        seq![]
    } else if is_ws(s.last()) {
        strip_ws(s.drop_last())
    } else {
        strip_ws(s.drop_last()).push(s.last())
    }
}

pub fn is_whitespace(c: char) -> (r: bool)
    ensures
        r == is_ws(c),
{
    let u = c as u32;
    (0x09 <= u && u <= 0x0d) || u == 0x20 || u == 0x85 || u == 0xa0 || u == 0x1680
        || (0x2000 <= u && u <= 0x200a) || u == 0x2028 || u == 0x2029 || u == 0x202f
        || u == 0x205f || u == 0x3000
}

/// The characters of `v` without whitespace.
pub fn strip_whitespace_chars(v: &Vec<char>) -> (r: Vec<char>)
    ensures
        r@ == strip_ws(v@),
{
    let mut out: Vec<char> = Vec::new();
    let mut i: usize = 0;
    while i < v.len()
        invariant
            i <= v.len(),
            out@ == strip_ws(v@.subrange(0, i as int)),
        decreases v.len() - i,
    {
        assert(v@.subrange(0, i as int + 1).drop_last() =~= v@.subrange(0, i as int));
        let c = v[i];
        if !is_whitespace(c) {
            out.push(c);
        }
        i = i + 1;
    }
    assert(v@.subrange(0, v.len() as int) =~= v@);
    out
}

/// Removes every whitespace character from `s`, keeping the others in order.
pub fn remove_whitespace(s: &mut String)
    ensures
        final(s)@ == strip_ws(old(s)@),
{
    let v = chars_of(s.as_str());
    let kept = strip_whitespace_chars(&v);
    *s = string_of(&kept);
}

pub open spec fn digit_char(d: nat) -> char {
    if d == 0 { '0' } else if d == 1 { '1' } else if d == 2 { '2' } else if d == 3 { '3' }
    else if d == 4 { '4' } else if d == 5 { '5' } else if d == 6 { '6' } else if d == 7 { '7' }
    else if d == 8 { '8' } else { '9' }
}

/// The decimal numeral of `n`, without leading zeros.
pub open spec fn decimal(n: nat) -> Seq<char>
    decreases n,
{
    if n < 10 {
        seq![digit_char(n)]
    } else {
        decimal(n / 10).push(digit_char(n % 10))
    }
}

fn digit(d: u64) -> (c: char)
    requires
        d < 10,
    ensures
        c == digit_char(d as nat),
{
    if d == 0 { '0' } else if d == 1 { '1' } else if d == 2 { '2' } else if d == 3 { '3' }
    else if d == 4 { '4' } else if d == 5 { '5' } else if d == 6 { '6' } else if d == 7 { '7' }
    else if d == 8 { '8' } else { '9' }
}

fn push_decimal(n: u64, out: &mut Vec<char>)
    ensures
        final(out)@ == old(out)@ + decimal(n as nat),
    decreases n,
{
    if n >= 10 {
        push_decimal(n / 10, out);
    }
    out.push(digit(n % 10));
    assert(final(out)@ =~= old(out)@ + decimal(n as nat));
}

/// The decimal numeral of `n`, as `to_string` writes it.
pub fn decimal_string(n: u64) -> (r: String)
    ensures
        r@ == decimal(n as nat),
{
    let mut v: Vec<char> = Vec::new();
    push_decimal(n, &mut v);
    assert(v@ =~= decimal(n as nat));
    string_of(&v)
}


/// Whether position `i` of `s` opens a component of a `/`-separated path that
/// counts as an ancestor step: empty components are skipped, and so is a `.`
/// component, unless it opens a relative path.
pub open spec fn starts_component(s: Seq<char>, i: int) -> bool {
    &&& s[i] != '/'
    &&& i == 0 || s[i - 1] == '/'
    &&& !(i > 0 && s[i] == '.' && (i + 1 == s.len() || s[i + 1] == '/'))
}

/// The number of counted components that open among the first `n` positions.
pub open spec fn components_before(s: Seq<char>, n: int) -> nat
    decreases n,
{
    if n <= 0 {
        0
    } else {
        components_before(s, n - 1) + if starts_component(s, n - 1) { 1nat } else { 0nat }
    }
}

/// How many ancestors `Path::ancestors` yields for a path, itself included:
/// its counted components and the root (or the empty path) above them.
pub open spec fn path_depth(s: Seq<char>) -> nat {
    components_before(s, s.len() as int) + 1
}

/// Counts the ancestors of `path`, the path itself included.
pub fn calculate_depth(path: &str) -> (r: usize)
    requires
        path@.len() < usize::MAX,
    ensures
        r == path_depth(path@),
{
    let v = chars_of(path);
    let mut count: usize = 0;
    let mut i: usize = 0;
    while i < v.len()
        invariant
            i <= v.len(),
            v@ == path@,
            v.len() < usize::MAX,
            count == components_before(v@, i as int),
            count <= i,
        decreases v.len() - i,
    {
        let opens = v[i] != '/' && (i == 0 || v[i - 1] == '/');
        let lone_dot = i > 0 && v[i] == '.' && (i + 1 == v.len() || v[i + 1] == '/');
        if opens && !lone_dot {
            count = count + 1;
        }
        i = i + 1;
    }
    count + 1
}

/// The index of the last `.` of `s`, or -1 where there is none.
pub open spec fn last_dot(s: Seq<char>) -> int
    decreases s.len(),
{
    if s.len() == 0 {
        -1
    } else if s.last() == '.' {
        s.len() - 1
    } else {
        last_dot(s.drop_last())
    }
}

proof fn lemma_last_dot_bounds(s: Seq<char>)
    ensures
        -1 <= last_dot(s) < s.len(),
        last_dot(s) >= 0 ==> s[last_dot(s)] == '.',
    decreases s.len(),
{
    if s.len() > 0 && s.last() != '.' {
        lemma_last_dot_bounds(s.drop_last());
    }
}

/// The extension of a file name: what follows its last `.`, where that dot
/// does not open the name.
pub open spec fn extension_of(name: Seq<char>) -> Seq<char> {
    if last_dot(name) > 0 {
        name.subrange(last_dot(name) + 1, name.len() as int)
    } else {
        seq![]
    }
}

/// A file name without its extension and the dot before it.
pub open spec fn stem_of(name: Seq<char>) -> Seq<char> {
    if last_dot(name) > 0 {
        name.subrange(0, last_dot(name))
    } else {
        name
    }
}

/// A file name with its extension replaced by `ext` (or `ext` appended where
/// it had none).
pub open spec fn with_extension(name: Seq<char>, ext: Seq<char>) -> Seq<char> {
    stem_of(name) + seq!['.'] + ext
}

fn find_last_dot(v: &Vec<char>) -> (r: Option<usize>)
    ensures
        r is Some <==> last_dot(v@) >= 0,
        r is Some ==> r->0 == last_dot(v@) && r->0 < v@.len(),
{
    let mut found: Option<usize> = None;
    let mut i: usize = 0;
    while i < v.len()
        invariant
            i <= v.len(),
            found is Some <==> last_dot(v@.subrange(0, i as int)) >= 0,
            found is Some ==> found->0 == last_dot(v@.subrange(0, i as int)),
        decreases v.len() - i,
    {
        let ghost sub = v@.subrange(0, i as int + 1);
        assert(sub.drop_last() =~= v@.subrange(0, i as int));
        proof { lemma_last_dot_bounds(v@.subrange(0, i as int)); }
        if v[i] == '.' {
            found = Some(i);
        }
        i = i + 1;
    }
    assert(v@.subrange(0, v.len() as int) =~= v@);
    proof { lemma_last_dot_bounds(v@); }
    found
}

fn copy_range(v: &Vec<char>, lo: usize, hi: usize, out: &mut Vec<char>)
    requires
        lo <= hi <= v.len(),
    ensures
        final(out)@ == old(out)@ + v@.subrange(lo as int, hi as int),
{
    let mut i: usize = lo;
    while i < hi
        invariant
            lo <= i <= hi <= v.len(),
            out@ == old(out)@ + v@.subrange(lo as int, i as int),
        decreases hi - i,
    {
        out.push(v[i]);
        i = i + 1;
        assert(out@ =~= old(out)@ + v@.subrange(lo as int, i as int));
    }
}

/// The extension of the file name `name`, empty where it has none.
pub fn file_extension(name: &str) -> (r: String)
    ensures
        r@ == extension_of(name@),
{
    let v = chars_of(name);
    let mut out: Vec<char> = Vec::new();
    match find_last_dot(&v) {
        Some(d) => {
            if d > 0 {
                copy_range(&v, d + 1, v.len(), &mut out);
            }
        },
        None => {},
    }
    assert(out@ =~= extension_of(name@));
    string_of(&out)
}

/// The name `name` given the extension `new_extension`.
pub fn change_file_name(name: &str, new_extension: &str) -> (r: String)
    ensures
        r@ == with_extension(name@, new_extension@),
{
    let v = chars_of(name);
    let e = chars_of(new_extension);
    let mut out: Vec<char> = Vec::new();
    let stem_end = match find_last_dot(&v) {
        Some(d) => if d > 0 { d } else { v.len() },
        None => v.len(),
    };
    copy_range(&v, 0, stem_end, &mut out);
    out.push('.');
    copy_range(&e, 0, e.len(), &mut out);
    assert(v@.subrange(0, v.len() as int) =~= v@);
    assert(e@.subrange(0, e.len() as int) =~= e@);
    assert(out@ =~= with_extension(name@, new_extension@));
    string_of(&out)
}

} // verus!
