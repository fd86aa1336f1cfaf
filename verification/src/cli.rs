use vstd::prelude::*;

use crate::command::Command;
use crate::domain::OpenedWork;
use crate::error::WorkonError;
use crate::output::CommandOutput;
use crate::text::{chars_of, concat3, clone_string, lower, str_eq, texts, to_lower, trim, trim_exec};

verus! {

/// The interactive view runs for a plain `wo` (a Work list that allows it),
/// not for machine output, and only with a terminal on both ends.
pub open spec fn runs_tui(command: Command, machine: bool, allow_tui: bool, stdin_terminal: bool, stdout_terminal: bool) -> bool {
    allow_tui && !machine && stdin_terminal && stdout_terminal && command is ListWorks
}

/// What the command line does once the interactive view ended.
#[derive(Debug)]
pub enum TuiOutcomeStep {
    /// Print what the view produced.
    Print(CommandOutput),
    /// The view produced nothing to print.
    Nothing,
    /// The view could not start: warn, then print the Work list instead.
    ListInstead { warning: String },
    /// The view failed.
    Fail(WorkonError),
}

/// The warning shown when the interactive view cannot start.
pub open spec fn tui_fallback_warning(message: Seq<char>) -> Seq<char> {
    "warning: TUI unavailable ("@ + message + "); showing list instead."@
}

/// What the command line does with the result of the interactive view: an
/// output is printed, a view that cannot start falls back to the Work list
/// with a warning, and any other error fails.
pub fn after_tui(result: Result<Option<CommandOutput>, WorkonError>) -> (r: TuiOutcomeStep)
    ensures
        match result {
            Ok(Some(output)) => r == TuiOutcomeStep::Print(output),
            Ok(None) => r is Nothing,
            Err(WorkonError::TuiUnavailable { message }) => r matches TuiOutcomeStep::ListInstead {
                warning,
            } && warning@ == tui_fallback_warning(message@),
            Err(error) => r == TuiOutcomeStep::Fail(error),
        },
{
    match result {
        Ok(Some(output)) => TuiOutcomeStep::Print(output),
        Ok(None) => TuiOutcomeStep::Nothing,
        Err(WorkonError::TuiUnavailable { message }) => TuiOutcomeStep::ListInstead {
            warning: concat3("warning: TUI unavailable (", message.as_str(), "); showing list instead."),
        },
        Err(error) => TuiOutcomeStep::Fail(error),
    }
}

/// Whether the interactive view runs.
pub fn should_run_tui(command: &Command, machine: bool, allow_tui: bool, stdin_terminal: bool, stdout_terminal: bool) -> (r: bool)
    ensures
        r == runs_tui(*command, machine, allow_tui, stdin_terminal, stdout_terminal),
{
    let list = match command {
        Command::ListWorks => true,
        _ => false,
    };
    allow_tui && !machine && stdin_terminal && stdout_terminal && list
}

/// Installing the shell function is offered before a command that switches
/// folders, when the function is not active, the output is for a person,
/// and someone can answer.
pub open spec fn offers_shell_install(command: Command, machine: bool, hook_active: bool, stdin_terminal: bool) -> bool {
    !machine && !hook_active && stdin_terminal && (command is CreateWork || command is OpenOrCreate
        || command is OpenWork)
}

/// Whether installing the shell function is offered.
pub fn should_offer_shell_install(command: &Command, machine: bool, hook_active: bool, stdin_terminal: bool) -> (r: bool)
    ensures
        r == offers_shell_install(*command, machine, hook_active, stdin_terminal),
{
    let switches = match command {
        Command::CreateWork { .. } | Command::OpenOrCreate { .. } | Command::OpenWork { .. } => true,
        _ => false,
    };
    !machine && !hook_active && stdin_terminal && switches
}

/// The answer to the install question accepts: `y` or `yes` in any case,
/// around spaces.
pub open spec fn accepts(answer: Seq<char>) -> bool {
    lower(trim(answer)) == "y"@ || lower(trim(answer)) == "yes"@
}

/// Whether the answer to the install question accepts.
pub fn install_accepted(answer: &str) -> (r: bool)
    ensures
        r == accepts(answer@),
{
    let t = trim_exec(answer);
    let l = to_lower(t.as_str());
    str_eq(l.as_str(), "y") || str_eq(l.as_str(), "yes")
}

/// An ASCII digit.
pub open spec fn is_digit(c: char) -> bool {
    '0' <= c && c <= '9'
}

/// Every character is an ASCII digit.
pub open spec fn all_digits(d: Seq<char>) -> bool {
    forall|i: int| 0 <= i < d.len() ==> is_digit(#[trigger] d[i])
}

/// The value of a run of decimal digits.
pub open spec fn digits_value(s: Seq<char>) -> nat
    decreases s.len(),
{
    if s.len() == 0 {
        0
    } else {
        digits_value(s.drop_last()) * 10 + (s.last() as int - '0' as int) as nat
    }
}

/// The digits of a number text: without its `+` sign, if any.
pub open spec fn unsigned_part(s: Seq<char>) -> Seq<char> {
    if s.len() > 0 && s[0] == '+' {
        s.drop_first()
    } else {
        s
    }
}

/// The number a text spells: an optional `+` and at least one decimal
/// digit, of a value that fits in `usize`.
pub open spec fn number_of(s: Seq<char>) -> Option<nat> {
    let d = unsigned_part(s);
    if d.len() > 0 && all_digits(d) && digits_value(d) <= usize::MAX {
        Some(digits_value(d))
    } else {
        None
    }
}

proof fn lemma_digits_value_grows(s: Seq<char>, k: int)
    requires
        0 <= k <= s.len(),
        all_digits(s),
    ensures
        digits_value(s.take(k)) <= digits_value(s),
    decreases s.len() - k,
{
    if k < s.len() {
        lemma_digits_value_grows(s, k + 1);
        assert(s.take(k + 1).drop_last() =~= s.take(k));
        assert(digits_value(s.take(k + 1)) >= digits_value(s.take(k)) * 10) by (nonlinear_arith)
            requires
                digits_value(s.take(k + 1)) == digits_value(s.take(k)) * 10 + (s[k] as int - '0' as int) as nat,
        ;
    } else {
        assert(s.take(k) =~= s);
    }
}

/// The number a text spells, as `usize` parsing reads it.
pub fn parse_number(text: &str) -> (r: Option<usize>)
    ensures
        r matches Some(n) ==> number_of(text@) == Some(n as nat),
        r is None ==> number_of(text@) is None,
{
    let v = chars_of(text);
    let start: usize = if v.len() > 0 && v[0] == '+' { 1 } else { 0 };
    let ghost d = unsigned_part(text@);
    assert(d =~= v@.skip(start as int));
    if start >= v.len() {
        return None;
    }
    let mut value: usize = 0;
    let mut i: usize = start;
    while i < v.len()
        invariant
            start <= i <= v@.len(),
            start < v@.len(),
            v@ == text@,
            d == v@.skip(start as int),
            d == unsigned_part(text@),
            forall|k: int| start <= k < i ==> is_digit(#[trigger] v@[k]),
            value as nat == digits_value(d.take(i - start)),
        decreases v@.len() - i,
    {
        let c = v[i];
        assert(d[i - start] == v@[i as int]);
        if !('0' <= c && c <= '9') {
            assert(!is_digit(d[i - start]));
            assert(!all_digits(d));
            return None;
        }
        let digit = (c as u32 - '0' as u32) as usize;
        let ghost j: int = i - start + 1;
        proof {
            assert(d.take(j).drop_last() =~= d.take(j - 1));
            assert(d.take(j).last() == c);
            assert(digits_value(d.take(j)) == value * 10 + digit);
        }
        let times = value.checked_mul(10);
        match times {
            Some(t) => match t.checked_add(digit) {
                Some(next) => {
                    value = next;
                },
                None => {
                    assert(digits_value(d.take(j)) > usize::MAX);
                    assert(number_of(text@) is None) by {
                        if all_digits(d) {
                            lemma_digits_value_grows(d, j);
                            assert(digits_value(d) > usize::MAX);
                        }
                    }
                    return None;
                },
            },
            None => {
                assert(number_of(text@) is None) by {
                    if all_digits(d) {
                        lemma_digits_value_grows(d, j);
                    }
                }
                return None;
            },
        }
        i = i + 1;
    }
    assert(d.take(i - start) =~= d);
    Some(value)
}

/// The ids of the intents.
pub open spec fn intent_ids(intents: Seq<(String, String)>) -> Seq<Seq<char>> {
    intents.map_values(|e: (String, String)| e.0@)
}

/// The intent a typed selection picks, after trimming: a number picks that
/// entry of the list (counting from one; zero picks the first), else an id
/// picks itself; anything else is an unknown intent.
pub open spec fn chosen_intent(selection: Seq<char>, intents: Seq<(String, String)>) -> Option<Seq<char>> {
    let s = trim(selection);
    match number_of(s) {
        Some(n) if (if n > 0 { n - 1 } else { 0 }) < intents.len() => Some(
            intents[if n > 0 { n - 1 } else { 0 }].0@,
        ),
        _ => if intent_ids(intents).contains(s) {
            Some(s)
        } else {
            None
        },
    }
}

/// The intent a typed selection picks; an unknown one is an error that
/// names the selection and the ids that can be chosen.
pub fn choose_intent(selection: &str, intents: &Vec<(String, String)>) -> (r: Result<String, WorkonError>)
    ensures
        match chosen_intent(selection@, intents@) {
            Some(id) => r matches Ok(s) && s@ == id,
            None => r matches Err(WorkonError::UnknownIntent { intent_id, available }) && intent_id@
                == trim(selection@) && texts(available@) == intent_ids(intents@),
        },
{
    let selected = trim_exec(selection);
    match parse_number(selected.as_str()) {
        Some(number) => {
            let index = if number > 0 { number - 1 } else { 0 };
            if index < intents.len() {
                return Ok(clone_string(&intents[index].0));
            }
        },
        None => {},
    }
    let mut ids: Vec<String> = Vec::new();
    let mut found = false;
    let mut i: usize = 0;
    while i < intents.len()
        invariant
            i <= intents@.len(),
            texts(ids@) == intent_ids(intents@.take(i as int)),
            found == intent_ids(intents@.take(i as int)).contains(selected@),
        decreases intents@.len() - i,
    {
        let id = clone_string(&intents[i].0);
        if str_eq(id.as_str(), selected.as_str()) {
            found = true;
        }
        proof {
            broadcast use vstd::seq_lib::group_seq_properties;
            crate::seqs::lemma_texts_push(ids@, id);
            assert(intent_ids(intents@.take(i + 1)) =~= intent_ids(intents@.take(i as int)).push(id@));
        }
        ids.push(id);
        i = i + 1;
    }
    assert(intents@.take(intents@.len() as int) =~= intents@);
    if found {
        Ok(selected)
    } else {
        Err(WorkonError::UnknownIntent { intent_id: selected, available: ids })
    }
}


/// What `wo <text>` does after looking the text up among the Works.
#[derive(Debug, Clone, PartialEq, Eq)]
pub enum OpenOrCreateStep {
    /// A Work matched: open it.
    Open(OpenedWork),
    /// No Work matched: create one for the text as its goal.
    Create { goal: String, intent_id: String },
    /// The lookup failed otherwise (several Works matched): report it.
    Fail(WorkonError),
}

/// The intent new Work gets when none is asked for.
pub const BLANK_INTENT: &'static str = "blank";

/// What `wo <text>` does with the result of looking the text up: open the
/// match; when nothing matches, create a Work for the text with the asked
/// intent, or the `blank` one; any other failure stands.
pub fn open_or_create(input: &str, intent_id: Option<String>, lookup: Result<OpenedWork, WorkonError>) -> (r: OpenOrCreateStep)
    ensures
        match lookup {
            Ok(o) => r == OpenOrCreateStep::Open(o),
            Err(WorkonError::WorkNotFound { .. }) => r matches OpenOrCreateStep::Create { goal, intent_id: id }
                && goal@ == input@ && id@ == match intent_id {
                    Some(i) => i@,
                    None => BLANK_INTENT@,
                },
            Err(e) => r == OpenOrCreateStep::Fail(e),
        },
{
    match lookup {
        Ok(opened) => OpenOrCreateStep::Open(opened),
        Err(WorkonError::WorkNotFound { .. }) => {
            let id = match intent_id {
                Some(i) => i,
                None => crate::text::owned(BLANK_INTENT),
            };
            OpenOrCreateStep::Create { goal: crate::text::owned(input), intent_id: id }
        },
        Err(error) => OpenOrCreateStep::Fail(error),
    }
}

} // verus!
