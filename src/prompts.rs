//! How the answers typed at the interactive prompts are read. The prompting
//! itself is the caller's; these functions decide what an answer means.
use crate::provider::ProviderKind;
use vstd::prelude::*;

verus! {

/// Whether two characters are equal once ASCII letters are put in lower case.
pub open spec fn same_char_ignoring_ascii_case(a: char, b: char) -> bool {
    let x = a as int;
    let y = b as int;
    x == y || (65 <= x <= 90 && y == x + 32) || (65 <= y <= 90 && x == y + 32)
}

/// Whether two texts are equal once ASCII letters are put in lower case.
pub open spec fn same_ignoring_ascii_case(a: Seq<char>, b: Seq<char>) -> bool {
    a.len() == b.len() && forall|i: int| 0 <= i < a.len() ==> same_char_ignoring_ascii_case(
        #[trigger] a[i],
        b[i],
    )
}

/// Relies on `str::eq_ignore_ascii_case`: equal lengths, and each pair of
/// characters equal up to the case of ASCII letters.
#[verifier::external_body]
fn eq_ignoring_case(a: &str, b: &str) -> (r: bool)
    ensures
        r == same_ignoring_ascii_case(a@, b@),
{
    a.eq_ignore_ascii_case(b)
}

/// The number that `str::parse::<usize>` reads from a text, `None` where it
/// reports an error.
pub uninterp spec fn parsed_index(s: Seq<char>) -> Option<usize>;

/// Relies on `str::parse::<usize>`: the result depends on the text alone.
#[verifier::external_body]
fn parse_usize(s: &str) -> (r: Option<usize>)
    ensures
        r == parsed_index(s@),
{
    s.parse::<usize>().ok()
}

/// Whether the answer is one of the words, ignoring ASCII case.
pub open spec fn answer_in(answer: Seq<char>, words: Seq<Seq<char>>) -> bool {
    exists|i: int| 0 <= i < words.len() && same_ignoring_ascii_case(answer, #[trigger] words[i])
}

/// The words of a yes/no question that mean yes, and those that mean no.
pub open spec fn yes_words() -> Seq<Seq<char>> {
    seq!["y"@, "yes"@]
}

pub open spec fn no_words() -> Seq<Seq<char>> {
    seq!["n"@, "no"@]
}

/// The words of a flag question that mean true, and those that mean false.
pub open spec fn true_words() -> Seq<Seq<char>> {
    seq!["true"@, "t"@, "1"@, "yes"@, "y"@]
}

pub open spec fn false_words() -> Seq<Seq<char>> {
    seq!["false"@, "f"@, "0"@, "no"@, "n"@]
}

/// The texts of a list of words.
pub open spec fn word_texts(words: Seq<&str>) -> Seq<Seq<char>> {
    words.map_values(|w: &str| w@)
}

/// Whether the answer is one of the words, ignoring ASCII case.
fn matches_any(answer: &str, words: &[&str]) -> (r: bool)
    ensures
        r == answer_in(answer@, word_texts(words@)),
{
    let mut i: usize = 0;
    while i < words.len()
        invariant
            i <= words@.len(),
            forall|j: int|
                0 <= j < i ==> !same_ignoring_ascii_case(answer@, #[trigger] word_texts(words@)[j]),
        decreases words@.len() - i,
    {
        if eq_ignoring_case(answer, words[i]) {
            assert(same_ignoring_ascii_case(answer@, word_texts(words@)[i as int]));
            return true;
        }
        i = i + 1;
    }
    false
}

/// The meaning of an answer to a yes/no question: the default where it is
/// empty, `None` where it is neither yes nor no (the question is asked again).
pub open spec fn yes_no_answer(answer: Seq<char>, default_value: bool) -> Option<bool> {
    if answer.len() == 0 {
        Some(default_value)
    } else if answer_in(answer, yes_words()) {
        Some(true)
    } else if answer_in(answer, no_words()) {
        Some(false)
    } else {
        None
    }
}

pub fn parse_yes_no(answer: &str, default_value: bool) -> (r: Option<bool>)
    ensures
        r == yes_no_answer(answer@, default_value),
{
    if answer.is_empty() {
        return Some(default_value);
    }
    let yes: [&str; 2] = ["y", "yes"];
    let no: [&str; 2] = ["n", "no"];
    assert(word_texts(yes@) =~= yes_words());
    assert(word_texts(no@) =~= no_words());
    if matches_any(answer, yes.as_slice()) {
        Some(true)
    } else if matches_any(answer, no.as_slice()) {
        Some(false)
    } else {
        None
    }
}

/// The meaning of an answer to an optional flag question: `Some(None)` where
/// it is empty (the flag stays unset), `None` where it is no flag word (the
/// question is asked again).
pub open spec fn flag_answer(answer: Seq<char>) -> Option<Option<bool>> {
    if answer.len() == 0 {
        Some(None)
    } else if answer_in(answer, true_words()) {
        Some(Some(true))
    } else if answer_in(answer, false_words()) {
        Some(Some(false))
    } else {
        None
    }
}

pub fn parse_flag_answer(answer: &str) -> (r: Option<Option<bool>>)
    ensures
        r == flag_answer(answer@),
{
    if answer.is_empty() {
        return Some(None);
    }
    let yes: [&str; 5] = ["true", "t", "1", "yes", "y"];
    let no: [&str; 5] = ["false", "f", "0", "no", "n"];
    assert(word_texts(yes@) =~= true_words());
    assert(word_texts(no@) =~= false_words());
    if matches_any(answer, yes.as_slice()) {
        Some(Some(true))
    } else if matches_any(answer, no.as_slice()) {
        Some(Some(false))
    } else {
        None
    }
}

/// The actions of the interactive menu.
#[derive(Debug, Clone, Copy, PartialEq, Eq, Structural)]
pub enum MenuAction {
    List,
    Current,
    Use,
    Add,
    Remove,
    Reset,
    Install,
    Exit,
    Invalid,
}

/// The action that a menu answer selects, by number or by name.
pub open spec fn menu_action(answer: Seq<char>) -> MenuAction {
    if answer_in(answer, seq!["1"@, "list"@]) {
        MenuAction::List
    } else if answer_in(answer, seq!["2"@, "current"@]) {
        MenuAction::Current
    } else if answer_in(answer, seq!["3"@, "use"@]) {
        MenuAction::Use
    } else if answer_in(answer, seq!["4"@, "add"@]) {
        MenuAction::Add
    } else if answer_in(answer, seq!["5"@, "remove"@]) {
        MenuAction::Remove
    } else if answer_in(answer, seq!["6"@, "reset"@, "reset-official"@]) {
        MenuAction::Reset
    } else if answer_in(answer, seq!["7"@, "install"@]) {
        MenuAction::Install
    } else if answer_in(answer, seq!["0"@, "exit"@, "quit"@]) {
        MenuAction::Exit
    } else {
        MenuAction::Invalid
    }
}

pub fn parse_menu_action(answer: &str) -> (r: MenuAction)
    ensures
        r == menu_action(answer@),
{
    let list: [&str; 2] = ["1", "list"];
    let current: [&str; 2] = ["2", "current"];
    let use_words: [&str; 2] = ["3", "use"];
    let add: [&str; 2] = ["4", "add"];
    let remove: [&str; 2] = ["5", "remove"];
    let reset: [&str; 3] = ["6", "reset", "reset-official"];
    let install: [&str; 2] = ["7", "install"];
    let exit: [&str; 3] = ["0", "exit", "quit"];
    assert(word_texts(list@) =~= seq!["1"@, "list"@]);
    assert(word_texts(current@) =~= seq!["2"@, "current"@]);
    assert(word_texts(use_words@) =~= seq!["3"@, "use"@]);
    assert(word_texts(add@) =~= seq!["4"@, "add"@]);
    assert(word_texts(remove@) =~= seq!["5"@, "remove"@]);
    assert(word_texts(reset@) =~= seq!["6"@, "reset"@, "reset-official"@]);
    assert(word_texts(install@) =~= seq!["7"@, "install"@]);
    assert(word_texts(exit@) =~= seq!["0"@, "exit"@, "quit"@]);
    if matches_any(answer, list.as_slice()) {
        MenuAction::List
    } else if matches_any(answer, current.as_slice()) {
        MenuAction::Current
    } else if matches_any(answer, use_words.as_slice()) {
        MenuAction::Use
    } else if matches_any(answer, add.as_slice()) {
        MenuAction::Add
    } else if matches_any(answer, remove.as_slice()) {
        MenuAction::Remove
    } else if matches_any(answer, reset.as_slice()) {
        MenuAction::Reset
    } else if matches_any(answer, install.as_slice()) {
        MenuAction::Install
    } else if matches_any(answer, exit.as_slice()) {
        MenuAction::Exit
    } else {
        MenuAction::Invalid
    }
}

/// The provider tag of an answer: GLM where it says `glm` in any case, the
/// custom kind otherwise.
pub fn provider_from_answer(answer: &str) -> (r: ProviderKind)
    ensures
        r == (if same_ignoring_ascii_case(answer@, "glm"@) {
            ProviderKind::Glm
        } else {
            ProviderKind::Custom
        }),
{
    if eq_ignoring_case(answer, "glm") {
        ProviderKind::Glm
    } else {
        ProviderKind::Custom
    }
}

/// The position in a list of `count` presets that an answer selects by its
/// number, counted from one; `None` where it names no listed number.
pub fn select_preset_index(answer: &str, count: usize) -> (r: Option<usize>)
    ensures
        match parsed_index(answer@) {
            Some(n) => if 1 <= n <= count {
                r == Some((n - 1) as usize)
            } else {
                r is None
            },
            None => r is None,
        },
{
    match parse_usize(answer) {
        Some(n) => if 1 <= n && n <= count {
            Some(n - 1)
        } else {
            None
        },
        None => None,
    }
}

/// The answer, or the default where the answer is empty.
pub fn answer_or_default(answer: String, default_value: &str) -> (r: String)
    ensures
        r@ == (if answer@.len() == 0 {
            default_value@
        } else {
            answer@
        }),
{
    if answer.as_str().is_empty() {
        default_value.to_owned()
    } else {
        answer
    }
}

/// The answer to an optional question: `None` where it is empty.
pub fn optional_answer(answer: String) -> (r: Option<String>)
    ensures
        answer@.len() == 0 ==> r is None,
        answer@.len() != 0 ==> r == Some(answer),
{
    if answer.as_str().is_empty() {
        None
    } else {
        Some(answer)
    }
}

} // verus!
