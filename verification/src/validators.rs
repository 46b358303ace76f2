//! Field validators: pure predicates on the text of a field.
//!
//! An address is accepted when it reads as a local part, an `@`, a domain, a
//! `.` and a suffix of two or three lower-case letters, where local part and
//! domain are non-empty and free of spaces. A password is accepted when it is
//! not empty.

use vstd::prelude::*;

verus! {

/// A lower-case ASCII letter.
pub open spec fn is_lower(c: char) -> bool {
    'a' <= c <= 'z'
}

/// One or more characters, none of them a space.
pub open spec fn is_label(part: Seq<char>) -> bool {
    &&& part.len() >= 1
    &&& forall|i: int| 0 <= i < part.len() ==> part[i] != ' '
}

/// Two or three lower-case letters.
pub open spec fn is_suffix(part: Seq<char>) -> bool {
    &&& 2 <= part.len() <= 3
    &&& forall|i: int| 0 <= i < part.len() ==> is_lower(part[i])
}

/// `text` is a local part, the `@` at index `at`, a domain, the `.` at index
/// `dot`, and a suffix.
pub open spec fn splits_at(text: Seq<char>, at: int, dot: int) -> bool {
    &&& 0 <= at < dot < text.len()
    &&& text[at] == '@'
    &&& text[dot] == '.'
    &&& is_label(text.subrange(0, at))
    &&& is_label(text.subrange(at + 1, dot))
    &&& is_suffix(text.subrange(dot + 1, text.len() as int))
}

/// The rule for an address: some way of splitting `text` makes it one.
pub open spec fn is_email(text: Seq<char>) -> bool {
    exists|at: int, dot: int| splits_at(text, at, dot)
}

/// The `.` at index `dot` is the last one in `text`.
pub open spec fn is_last_dot(text: Seq<char>, dot: int) -> bool {
    &&& 0 <= dot < text.len()
    &&& text[dot] == '.'
    &&& forall|i: int| dot < i < text.len() ==> text[i] != '.'
}

/// The rule for a password: any text at all, as long as there is some.
pub open spec fn is_password(text: Seq<char>) -> bool {
    text.len() > 0
}

/// What a left-to-right reading of an address has established so far.
#[derive(Clone, Copy)]
enum Scan {
    /// Nothing has been read.
    Start,
    /// Inside the local part: no `@` after the first character yet.
    Local,
    /// The `@` that ends the local part was the last character read.
    At,
    /// Inside the domain, with no dot that could still open the suffix.
    Domain,
    /// A dot inside the domain, then this many lower-case letters and
    /// nothing else.
    Suffix(u8),
    /// A space was read.
    Rejected,
}

/// The state after reading `c` in state `state`.
spec fn step(state: Scan, c: char) -> Scan {
    if c == ' ' {
        Scan::Rejected
    } else {
        match state {
            Scan::Start => Scan::Local,
            Scan::Local => if c == '@' {
                Scan::At
            } else {
                Scan::Local
            },
            Scan::At => Scan::Domain,
            Scan::Domain => if c == '.' {
                Scan::Suffix(0)
            } else {
                Scan::Domain
            },
            Scan::Suffix(k) => if c == '.' {
                Scan::Suffix(0)
            } else if is_lower(c) && k < 3 {
                Scan::Suffix((k + 1) as u8)
            } else {
                Scan::Domain
            },
            Scan::Rejected => Scan::Rejected,
        }
    }
}

/// The states in which the text read so far is an address.
spec fn accepting(state: Scan) -> bool {
    state matches Scan::Suffix(k) && 2 <= k <= 3
}

/// No space in `read`.
spec fn spaceless(read: Seq<char>) -> bool {
    forall|i: int| 0 <= i < read.len() ==> read[i] != ' '
}

/// The `@` at index `at` can end the local part and leaves room for a domain
/// that ends before index `dot`.
spec fn at_before(read: Seq<char>, at: int, dot: int) -> bool {
    1 <= at && at + 2 <= dot && read[at] == '@'
}

/// The dot at index `dot` has a domain before it and only lower-case letters
/// after it.
spec fn opens_suffix(read: Seq<char>, dot: int) -> bool {
    &&& 0 <= dot < read.len()
    &&& read[dot] == '.'
    &&& exists|at: int| at_before(read, at, dot)
    &&& forall|i: int| dot < i < read.len() ==> is_lower(read[i])
}

/// What each state says of the text `read` so far.
spec fn describes(state: Scan, read: Seq<char>) -> bool {
    match state {
        Scan::Start => read.len() == 0,
        Scan::Local => {
            &&& read.len() >= 1
            &&& spaceless(read)
            &&& forall|i: int| 1 <= i < read.len() ==> read[i] != '@'
        },
        Scan::At => {
            &&& read.len() >= 2
            &&& spaceless(read)
            &&& read[read.len() - 1] == '@'
            &&& forall|i: int| 1 <= i < read.len() - 1 ==> read[i] != '@'
        },
        Scan::Domain => {
            &&& spaceless(read)
            &&& exists|at: int| at_before(read, at, read.len() as int)
            &&& forall|dot: int| opens_suffix(read, dot) ==> read.len() - dot - 1 > 3
        },
        Scan::Suffix(k) => {
            &&& spaceless(read)
            &&& k <= 3
            &&& opens_suffix(read, read.len() - k - 1)
        },
        Scan::Rejected => !spaceless(read),
    }
}

/// A witness for the state `Domain`.
proof fn lemma_in_domain(read: Seq<char>, at: int)
    requires
        spaceless(read),
        at_before(read, at, read.len() as int),
        forall|dot: int| opens_suffix(read, dot) ==> read.len() - dot - 1 > 3,
    ensures
        describes(Scan::Domain, read),
{
}

/// A witness for the state `Suffix(k)`.
proof fn lemma_in_suffix(read: Seq<char>, k: u8, at: int)
    requires
        spaceless(read),
        k <= 3,
        0 <= read.len() - k - 1,
        read[read.len() - k - 1] == '.',
        at_before(read, at, read.len() - k - 1),
        forall|i: int| read.len() - k - 1 < i < read.len() ==> is_lower(read[i]),
    ensures
        describes(Scan::Suffix(k), read),
{
}

/// Reading one more character keeps the state true to the text.
proof fn lemma_step(state: Scan, read: Seq<char>, c: char)
    requires
        describes(state, read),
    ensures
        describes(step(state, c), read.push(c)),
{
    let next = read.push(c);
    let n = read.len() as int;
    assert(forall|i: int| 0 <= i < n ==> next[i] == read[i]);
    assert(next[n] == c);
    if c == ' ' {
        assert(!spaceless(next));
    } else {
        match state {
            Scan::Start => {},
            Scan::Local => {},
            Scan::At => {
                assert forall|dot: int| opens_suffix(next, dot) implies next.len() - dot - 1
                    > 3 by {
                    let at = choose|at: int| at_before(next, at, dot);
                    assert(next[at] == read[at]);
                }
                lemma_in_domain(next, n - 1);
            },
            Scan::Domain => {
                let at = choose|at: int| at_before(read, at, n);
                if c == '.' {
                    lemma_in_suffix(next, 0, at);
                } else {
                    assert forall|dot: int| opens_suffix(next, dot) implies next.len() - dot - 1
                        > 3 by {
                        let a = choose|a: int| at_before(next, a, dot);
                        assert(at_before(read, a, dot));
                        assert(opens_suffix(read, dot));
                    }
                    lemma_in_domain(next, at);
                }
            },
            Scan::Suffix(k) => {
                let dot = n - k - 1;
                let at = choose|at: int| at_before(read, at, dot);
                if c == '.' {
                    lemma_in_suffix(next, 0, at);
                } else if is_lower(c) && k < 3 {
                    lemma_in_suffix(next, (k + 1) as u8, at);
                } else {
                    assert forall|other: int| opens_suffix(next, other) implies next.len()
                        - other - 1 > 3 by {
                        if other < dot {
                            assert(is_lower(next[dot]));
                        } else if dot < other < n {
                            assert(is_lower(read[other]));
                        }
                    }
                    lemma_in_domain(next, at);
                }
            },
            Scan::Rejected => {
                let i = choose|i: int| 0 <= i < read.len() && read[i] == ' ';
                assert(next[i] == ' ');
            },
        }
    }
}

/// A true state accepts exactly the addresses.
proof fn lemma_accepting(state: Scan, text: Seq<char>)
    requires
        describes(state, text),
    ensures
        accepting(state) == is_email(text),
{
    let n = text.len() as int;
    if accepting(state) {
        let k = state->Suffix_0;
        let dot = n - k - 1;
        let at = choose|at: int| at_before(text, at, dot);
        assert(splits_at(text, at, dot));
    }
    if is_email(text) {
        let (at, dot) = choose|at: int, dot: int| splits_at(text, at, dot);
        lemma_split_read(text, at, dot);
        assert(at_before(text, at, dot));
        assert(at_before(text, at, n));
        assert(opens_suffix(text, dot));
        match state {
            Scan::Suffix(k) => {
                let mine = n - k - 1;
                if mine < dot {
                    assert(is_lower(text[dot]));
                } else if mine > dot {
                    assert(is_lower(text[mine]));
                }
            },
            Scan::At => {
                assert(is_lower(text[n - 1]));
            },
            _ => {},
        }
    }
}

/// What a split says of the characters of `text`, index by index.
proof fn lemma_split_read(text: Seq<char>, at: int, dot: int)
    requires
        splits_at(text, at, dot),
    ensures
        1 <= at,
        at + 2 <= dot,
        2 <= text.len() - dot - 1 <= 3,
        spaceless(text),
        forall|i: int| dot < i < text.len() ==> is_lower(text[i]),
{
    let local = text.subrange(0, at);
    let domain = text.subrange(at + 1, dot);
    let suffix = text.subrange(dot + 1, text.len() as int);
    assert forall|i: int| dot < i < text.len() implies is_lower(text[i]) by {
        assert(text[i] == suffix[i - dot - 1]);
    }
    assert forall|i: int| 0 <= i < text.len() implies text[i] != ' ' by {
        if i < at {
            assert(text[i] == local[i]);
        } else if at < i < dot {
            assert(text[i] == domain[i - at - 1]);
        }
    }
}

/// An address has an `@` and a `.` and no space, and what follows its last
/// `.` is two or three lower-case letters. So a text that lacks an `@` or a
/// `.`, holds a space, or ends otherwise after its last `.`, is no address.
pub proof fn lemma_email_requirements(text: Seq<char>)
    requires
        is_email(text),
    ensures
        text.contains('@'),
        text.contains('.'),
        !text.contains(' '),
        forall|dot: int|
            is_last_dot(text, dot) ==> is_suffix(
                #[trigger] text.subrange(dot + 1, text.len() as int),
            ),
{
    let (at, dot) = choose|at: int, dot: int| splits_at(text, at, dot);
    lemma_split_read(text, at, dot);
    assert(text[at] == '@');
    assert(text[dot] == '.');
    assert forall|last: int| is_last_dot(text, last) implies is_suffix(
        #[trigger] text.subrange(last + 1, text.len() as int),
    ) by {
        if last < dot {
            assert(text[dot] == '.');
        } else if last > dot {
            assert(is_lower(text[last]));
        }
    }
}

/// Reads one character.
fn advance(state: Scan, c: char) -> (next: Scan)
    requires
        state matches Scan::Suffix(k) ==> k <= 3,
    ensures
        next == step(state, c),
{
    if c == ' ' {
        Scan::Rejected
    } else {
        match state {
            Scan::Start => Scan::Local,
            Scan::Local => if c == '@' {
                Scan::At
            } else {
                Scan::Local
            },
            Scan::At => Scan::Domain,
            Scan::Domain => if c == '.' {
                Scan::Suffix(0)
            } else {
                Scan::Domain
            },
            Scan::Suffix(k) => if c == '.' {
                Scan::Suffix(0)
            } else if 'a' <= c && c <= 'z' && k < 3 {
                Scan::Suffix(k + 1)
            } else {
                Scan::Domain
            },
            Scan::Rejected => Scan::Rejected,
        }
    }
}

/// Decides whether `text` is an address, in one pass over its characters.
pub fn matches_email(text: &str) -> (ok: bool)
    ensures
        ok == is_email(text@),
{
    let mut state = Scan::Start;
    for c in it: text.chars()
        invariant
            it.seq() == text@,
            describes(state, text@.take(it.index() as int)),
    {
        proof {
            let read = text@.take(it.index() as int);
            lemma_step(state, read, c);
            assert(read.push(c) == text@.take(it.index() + 1));
        }
        state = advance(state, c);
    }
    proof {
        assert(text@.take(text@.len() as int) == text@);
        lemma_accepting(state, text@);
    }
    match state {
        Scan::Suffix(k) => 2 <= k && k <= 3,
        _ => false,
    }
}

/// Decides whether `email` is acceptable as an address.
pub fn validate_email(email: String) -> (ok: bool)
    ensures
        ok == is_email(email@),
        !email@.contains('@') ==> !ok,
        !email@.contains('.') ==> !ok,
        email@.contains(' ') ==> !ok,
        forall|dot: int|
            is_last_dot(email@, dot) && !is_suffix(
                #[trigger] email@.subrange(dot + 1, email@.len() as int),
            ) ==> !ok,
{
    let ok = matches_email(email.as_str());
    proof {
        if ok {
            lemma_email_requirements(email@);
        }
    }
    ok
}

/// Decides whether `password` is acceptable, that is, non-empty.
pub fn validate_password(password: String) -> (ok: bool)
    ensures
        ok == is_password(password@),
{
    !password.as_str().is_empty()
}

} // verus!
