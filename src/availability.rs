use vstd::prelude::*;
use crate::framework::Framework;

verus! {

/// The characters with the Unicode White_Space property, which is what
/// `char::is_whitespace` and `str::split_whitespace` go by.
pub open spec fn is_space(c: char) -> bool {
    ('\u{09}' <= c && c <= '\u{0D}') || c == ' ' || c == '\u{85}' || c == '\u{A0}' || c
        == '\u{1680}' || ('\u{2000}' <= c && c <= '\u{200A}') || c == '\u{2028}' || c
        == '\u{2029}' || c == '\u{202F}' || c == '\u{205F}' || c == '\u{3000}'
}

/// The first position at or after `i` that holds no whitespace (or the end).
pub open spec fn token_start(s: Seq<char>, i: int) -> int
    decreases s.len() - i,
{
    if 0 <= i < s.len() && is_space(s[i]) {
        token_start(s, i + 1)
    } else {
        i
    }
}

/// The first position at or after `i` that holds whitespace (or the end).
pub open spec fn token_end(s: Seq<char>, i: int) -> int
    decreases s.len() - i,
{
    if 0 <= i < s.len() && !is_space(s[i]) {
        token_end(s, i + 1)
    } else {
        i
    }
}

/// The first whitespace-delimited word of a command line: the executable it
/// names. Empty when the line holds only whitespace.
pub open spec fn first_word(s: Seq<char>) -> Seq<char> {
    s.subrange(token_start(s, 0), token_end(s, token_start(s, 0)))
}

/// Whether `c` is whitespace, in the sense of `is_space`.
pub fn is_space_char(c: char) -> (r: bool)
    ensures
        r == is_space(c),
{
    ('\u{09}' <= c && c <= '\u{0D}') || c == ' ' || c == '\u{85}' || c == '\u{A0}' || c
        == '\u{1680}' || ('\u{2000}' <= c && c <= '\u{200A}') || c == '\u{2028}' || c
        == '\u{2029}' || c == '\u{202F}' || c == '\u{205F}' || c == '\u{3000}'
}

/// The executable that a command line names: its first whitespace-delimited
/// word, or `None` when it has none.
pub fn first_token(cmd: &str) -> (r: Option<String>)
    ensures
        r is None <==> first_word(cmd@).len() == 0,
        r matches Some(w) ==> w@ == first_word(cmd@),
{
    let n = cmd.unicode_len();
    let mut a: usize = 0;
    while a < n && is_space_char(cmd.get_char(a))
        invariant
            a <= n == cmd@.len(),
            token_start(cmd@, 0) == token_start(cmd@, a as int),
        decreases n - a,
    {
        a += 1;
    }
    let mut b: usize = a;
    while b < n && !is_space_char(cmd.get_char(b))
        invariant
            a <= b <= n == cmd@.len(),
            token_start(cmd@, 0) == a,
            token_end(cmd@, a as int) == token_end(cmd@, b as int),
        decreases n - b,
    {
        b += 1;
    }
    assert(token_end(cmd@, a as int) == b);
    if a == b {
        None
    } else {
        let w = cmd.substring_char(a, b);
        Some(w.to_string())
    }
}

/// Relies on `which::which`: whether `name` resolves to an executable on the
/// host's search path. The answer depends on the host, so nothing is stated
/// of it.
#[verifier::external_body]
fn executable_on_path(name: &String) -> (r: bool) {
    which::which(name).is_ok()
}

/// Whether the executable that `cmd` names can be found on the host. A command
/// line with no word names none.
pub fn command_exists(cmd: &str) -> (r: bool)
    ensures
        first_word(cmd@).len() == 0 ==> !r,
{
    match first_token(cmd) {
        Some(exe) => executable_on_path(&exe),
        None => false,
    }
}

/// The names of a list of strings.
pub open spec fn names(v: Seq<String>) -> Seq<Seq<char>> {
    v.map_values(|s: String| s@)
}

/// A descriptor is usable on a host that offers the executables `host` when
/// both of its command lines name one of them.
pub open spec fn usable(f: Framework, host: Seq<Seq<char>>) -> bool {
    &&& first_word(f.list_cmd@).len() > 0
    &&& first_word(f.run_cmd@).len() > 0
    &&& host.contains(first_word(f.list_cmd@))
    &&& host.contains(first_word(f.run_cmd@))
}

/// The descriptors of `r` usable on `host`, in their order.
pub open spec fn usable_only(r: Seq<Framework>, host: Seq<Seq<char>>) -> Seq<Framework>
    decreases r.len(),
{
    if r.len() == 0 {
        r
    } else {
        let prev = usable_only(r.drop_last(), host);
        if usable(r.last(), host) {
            prev.push(r.last())
        } else {
            prev
        }
    }
}

/// Whether `host` holds a string equal to `name`.
fn offers(host: &Vec<String>, name: &String) -> (r: bool)
    ensures
        r == names(host@).contains(name@),
{
    let mut k: usize = 0;
    while k < host.len()
        invariant
            k <= host@.len(),
            forall|j: int| 0 <= j < k ==> (#[trigger] host@[j])@ != name@,
        decreases host@.len() - k,
    {
        if host[k] == *name {
            assert(names(host@)[k as int] == name@);
            return true;
        }
        k += 1;
    }
    assert forall|j: int| 0 <= j < names(host@).len() implies names(host@)[j] != name@ by {
        assert(host@[j]@ == names(host@)[j]);
    }
    false
}

/// Whether both command lines of `f` name an executable listed in `host`.
pub fn usable_on(f: &Framework, host: &Vec<String>) -> (r: bool)
    ensures
        r == usable(*f, names(host@)),
{
    let list_ok = match first_token(&f.list_cmd) {
        Some(exe) => offers(host, &exe),
        None => false,
    };
    let run_ok = match first_token(&f.run_cmd) {
        Some(exe) => offers(host, &exe),
        None => false,
    };
    list_ok && run_ok
}

/// The descriptors of `frameworks` whose two commands both name an executable
/// listed in `host`, in their order.
pub fn filter_for_host(frameworks: Vec<Framework>, host: &Vec<String>) -> (r: Vec<Framework>)
    ensures
        r@ == usable_only(frameworks@, names(host@)),
{
    let mut result: Vec<Framework> = Vec::new();
    let mut i: usize = 0;
    while i < frameworks.len()
        invariant
            i <= frameworks@.len(),
            result@ == usable_only(frameworks@.take(i as int), names(host@)),
        decreases frameworks@.len() - i,
    {
        assert(frameworks@.take(i as int + 1).drop_last() == frameworks@.take(i as int));
        if usable_on(&frameworks[i], host) {
            result.push(frameworks[i].duplicate());
        }
        i += 1;
    }
    assert(frameworks@.take(frameworks@.len() as int) == frameworks@);
    result
}

/// The descriptors of `frameworks` whose two commands both name an executable
/// found on the host's search path. What the host offers is not known here,
/// but the result is `frameworks` filtered for some set of executables.
pub fn filter_available_frameworks(frameworks: Vec<Framework>) -> (r: Vec<Framework>)
    ensures
        exists|host: Seq<Seq<char>>| r@ == usable_only(frameworks@, host),
{
    let mut found: Vec<String> = Vec::new();
    let mut i: usize = 0;
    while i < frameworks.len()
        invariant
            i <= frameworks@.len(),
        decreases frameworks@.len() - i,
    {
        if let Some(exe) = first_token(&frameworks[i].list_cmd) {
            if executable_on_path(&exe) {
                found.push(exe);
            }
        }
        if let Some(exe) = first_token(&frameworks[i].run_cmd) {
            if executable_on_path(&exe) {
                found.push(exe);
            }
        }
        i += 1;
    }
    let r = filter_for_host(frameworks, &found);
    assert(r@ == usable_only(frameworks@, names(found@)));
    r
}

/// Taking executables away from a host can only shrink the usable registry:
/// what stays usable on the smaller host is the usable registry of the larger
/// one, filtered again.
pub proof fn lemma_filter_monotone(
    r: Seq<Framework>,
    smaller: Seq<Seq<char>>,
    larger: Seq<Seq<char>>,
)
    requires
        forall|t: Seq<char>| smaller.contains(t) ==> larger.contains(t),
    ensures
        usable_only(r, smaller) == usable_only(usable_only(r, larger), smaller),
        usable_only(r, smaller).len() <= usable_only(r, larger).len(),
    decreases r.len(),
{
    if r.len() > 0 {
        lemma_filter_monotone(r.drop_last(), smaller, larger);
        let pl = usable_only(r.drop_last(), larger);
        if usable(r.last(), larger) {
            assert(pl.push(r.last()).drop_last() == pl);
        } else {
            assert(!usable(r.last(), smaller));
        }
    }
}

} // verus!
