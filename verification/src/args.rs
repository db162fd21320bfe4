//! Command-line arguments accepted by every channel-specific TUI binary, and
//! the environment variables through which they reach the headless app.
use vstd::prelude::*;
use vstd::string::*;

use crate::text::str_equal;

verus! {

/// Environment variable that carries the prompt to stream.
pub const PROMPT_ENV: &'static str = "WARP_TUI_PROMPT";

/// Environment variable that carries the conversation to continue.
pub const CONVERSATION_ID_ENV: &'static str = "WARP_TUI_CONVERSATION_ID";

/// Arguments of the TUI frontend.
#[derive(Debug, Default, PartialEq, Eq)]
pub struct TuiArgs {
    pub prompt: Option<String>,
    pub conversation_id: Option<String>,
}

/// The parsed arguments as character sequences.
pub struct TuiArgsModel {
    pub prompt: Option<Seq<char>>,
    pub conversation_id: Option<Seq<char>>,
}

impl View for TuiArgs {
    type V = TuiArgsModel;

    open spec fn view(&self) -> TuiArgsModel {
        TuiArgsModel {
            prompt: self.prompt.deep_view(),
            conversation_id: self.conversation_id.deep_view(),
        }
    }
}

/// The flags that take a value.
#[derive(Clone, Copy, Debug, PartialEq, Eq, Structural)]
pub enum ValueFlag {
    Prompt,
    ConversationId,
}

/// Why a command line was refused.
#[derive(Debug, PartialEq, Eq)]
pub enum ArgsError {
    /// A flag that takes a value came last.
    MissingValue(ValueFlag),
    /// An argument that is no known flag.
    UnknownArgument(String),
}

/// A refusal, with the unknown argument as a character sequence.
pub enum ArgsErrorModel {
    MissingValue(ValueFlag),
    UnknownArgument(Seq<char>),
}

impl View for ArgsError {
    type V = ArgsErrorModel;

    open spec fn view(&self) -> ArgsErrorModel {
        match self {
            ArgsError::MissingValue(flag) => ArgsErrorModel::MissingValue(*flag),
            ArgsError::UnknownArgument(arg) => ArgsErrorModel::UnknownArgument(arg@),
        }
    }
}

/// The user-facing text of a refusal.
pub open spec fn args_error_message(e: ArgsErrorModel) -> Seq<char> {
    match e {
        ArgsErrorModel::MissingValue(ValueFlag::Prompt) => "--prompt requires a value"@,
        ArgsErrorModel::MissingValue(ValueFlag::ConversationId) => "--conversation-id requires a value"@,
        ArgsErrorModel::UnknownArgument(arg) => "Unknown argument: "@ + arg,
    }
}

impl ArgsError {
    /// The user-facing text of this refusal.
    pub fn to_string(&self) -> (message: String)
        ensures
            message@ == args_error_message(self@),
    {
        match self {
            ArgsError::MissingValue(ValueFlag::Prompt) => String::from_str("--prompt requires a value"),
            ArgsError::MissingValue(ValueFlag::ConversationId) => String::from_str(
                "--conversation-id requires a value",
            ),
            ArgsError::UnknownArgument(arg) => {
                let mut message = String::from_str("Unknown argument: ");
                message.append(arg.as_str());
                message
            },
        }
    }
}

/// Parsing of `args` from position `i` on, with `acc` holding what the
/// earlier arguments set. A flag given twice keeps its last value.
pub open spec fn spec_parse_from(args: Seq<Seq<char>>, i: nat, acc: TuiArgsModel) -> Result<
    TuiArgsModel,
    ArgsErrorModel,
>
    decreases args.len() - i,
{
    if i >= args.len() {
        Ok(acc)
    } else if args[i as int] == "--prompt"@ {
        if i + 1 < args.len() {
            spec_parse_from(
                args,
                i + 2,
                TuiArgsModel { prompt: Some(args[i + 1 as int]), conversation_id: acc.conversation_id },
            )
        } else {
            Err(ArgsErrorModel::MissingValue(ValueFlag::Prompt))
        }
    } else if args[i as int] == "--conversation-id"@ {
        if i + 1 < args.len() {
            spec_parse_from(
                args,
                i + 2,
                TuiArgsModel { prompt: acc.prompt, conversation_id: Some(args[i + 1 as int]) },
            )
        } else {
            Err(ArgsErrorModel::MissingValue(ValueFlag::ConversationId))
        }
    } else {
        Err(ArgsErrorModel::UnknownArgument(args[i as int]))
    }
}

/// Parsing of a whole command line (program name excluded).
pub open spec fn spec_parse_args(args: Seq<Seq<char>>) -> Result<TuiArgsModel, ArgsErrorModel> {
    spec_parse_from(args, 0, TuiArgsModel { prompt: None, conversation_id: None })
}

/// Parses the arguments supported by every channel-specific TUI binary.
pub fn parse_args(args: Vec<String>) -> (result: Result<TuiArgs, ArgsError>)
    ensures
        result is Ok == spec_parse_args(args.deep_view()) is Ok,
        result matches Ok(parsed) ==> spec_parse_args(args.deep_view()) == Ok::<
            TuiArgsModel,
            ArgsErrorModel,
        >(parsed@),
        result matches Err(e) ==> spec_parse_args(args.deep_view()) == Err::<
            TuiArgsModel,
            ArgsErrorModel,
        >(e@),
{
    let ghost dv = args.deep_view();
    let mut parsed = TuiArgs { prompt: None, conversation_id: None };
    let mut i: usize = 0;
    while i < args.len()
        invariant
            dv == args.deep_view(),
            dv.len() == args@.len(),
            i <= args@.len(),
            spec_parse_from(dv, i as nat, parsed@) == spec_parse_args(dv),
        decreases args@.len() - i,
    {
        let arg = &args[i];
        assert(dv[i as int] == arg@);
        if str_equal(arg.as_str(), "--prompt") {
            if i + 1 < args.len() {
                assert(dv[i + 1] == args@[i + 1]@);
                parsed = TuiArgs { prompt: Some(args[i + 1].clone()), conversation_id: parsed.conversation_id };
                i = i + 2;
            } else {
                return Err(ArgsError::MissingValue(ValueFlag::Prompt));
            }
        } else if str_equal(arg.as_str(), "--conversation-id") {
            if i + 1 < args.len() {
                assert(dv[i + 1] == args@[i + 1]@);
                parsed = TuiArgs { prompt: parsed.prompt, conversation_id: Some(args[i + 1].clone()) };
                i = i + 2;
            } else {
                return Err(ArgsError::MissingValue(ValueFlag::ConversationId));
            }
        } else {
            return Err(ArgsError::UnknownArgument(arg.clone()));
        }
    }
    Ok(parsed)
}

proof fn lemma_parse_from_append(
    args: Seq<Seq<char>>,
    tail: Seq<Seq<char>>,
    i: nat,
    acc: TuiArgsModel,
)
    requires
        i <= args.len(),
        spec_parse_from(args, i, acc) is Ok,
    ensures
        spec_parse_from(args + tail, i, acc) == spec_parse_from(
            args + tail,
            args.len(),
            spec_parse_from(args, i, acc)->Ok_0,
        ),
    decreases args.len() - i,
{
    let all = args + tail;
    if i < args.len() {
        assert(all[i as int] == args[i as int]);
        if i + 1 < args.len() {
            assert(all[i + 1 as int] == args[i + 1 as int]);
        }
        if args[i as int] == "--prompt"@ {
            lemma_parse_from_append(
                args,
                tail,
                i + 2,
                TuiArgsModel { prompt: Some(args[i + 1 as int]), conversation_id: acc.conversation_id },
            );
        } else if args[i as int] == "--conversation-id"@ {
            lemma_parse_from_append(
                args,
                tail,
                i + 2,
                TuiArgsModel { prompt: acc.prompt, conversation_id: Some(args[i + 1 as int]) },
            );
        }
    }
}

/// A flag given again later overrides its earlier value: appending
/// `--prompt v` (or `--conversation-id v`) to an accepted command line
/// yields the same arguments with that one value replaced.
pub proof fn law_later_flag_overrides(args: Seq<Seq<char>>, value: Seq<char>)
    requires
        spec_parse_args(args) is Ok,
    ensures
        spec_parse_args(args + seq!["--prompt"@, value]) == Ok::<TuiArgsModel, ArgsErrorModel>(
            TuiArgsModel {
                prompt: Some(value),
                conversation_id: spec_parse_args(args)->Ok_0.conversation_id,
            },
        ),
        spec_parse_args(args + seq!["--conversation-id"@, value]) == Ok::<
            TuiArgsModel,
            ArgsErrorModel,
        >(TuiArgsModel { prompt: spec_parse_args(args)->Ok_0.prompt, conversation_id: Some(value) }),
{
    let start = TuiArgsModel { prompt: None, conversation_id: None };
    let m = spec_parse_args(args)->Ok_0;
    let p = args + seq!["--prompt"@, value];
    let c = args + seq!["--conversation-id"@, value];
    reveal_strlit("--prompt");
    reveal_strlit("--conversation-id");
    assert("--prompt"@.len() != "--conversation-id"@.len());
    lemma_parse_from_append(args, seq!["--prompt"@, value], 0, start);
    lemma_parse_from_append(args, seq!["--conversation-id"@, value], 0, start);
    assert(p[args.len() as int] == "--prompt"@);
    assert(p[args.len() + 1 as int] == value);
    assert(c[args.len() as int] == "--conversation-id"@);
    assert(c[args.len() + 1 as int] == value);
    assert(spec_parse_from(p, args.len() + 2, TuiArgsModel { prompt: Some(value), conversation_id: m.conversation_id }) is Ok);
    assert(spec_parse_from(c, args.len() + 2, TuiArgsModel { prompt: m.prompt, conversation_id: Some(value) }) is Ok);
}

/// Whether the command line belongs to the TUI frontend rather than to a Warp
/// worker: it does unless its first argument names a worker invocation.
/// `first_arg_is_worker_invocation` is that test on the first argument, or
/// `None` when there is no argument.
pub fn should_forward_args(first_arg_is_worker_invocation: Option<bool>) -> (forward: bool)
    ensures
        forward == (first_arg_is_worker_invocation != Some(true)),
{
    match first_arg_is_worker_invocation {
        Some(true) => false,
        _ => true,
    }
}

/// The environment assignments that hand parsed arguments to the headless app.
pub open spec fn spec_environment_assignments(args: TuiArgsModel) -> Seq<(Seq<char>, Seq<char>)> {
    let with_prompt = match args.prompt {
        Some(p) => seq![(PROMPT_ENV@, p)],
        None => Seq::empty(),
    };
    match args.conversation_id {
        Some(c) => with_prompt.push((CONVERSATION_ID_ENV@, c)),
        None => with_prompt,
    }
}

/// The forwarded environment holds the prompt exactly when one was parsed,
/// and the conversation id exactly when one was parsed, each independently of
/// the other, and nothing else: every assignment is one of these two.
pub proof fn law_environment_forwards_each_argument(args: TuiArgsModel, value: Seq<char>)
    ensures
        spec_environment_assignments(args).contains(("WARP_TUI_PROMPT"@, value)) <==> args.prompt
            == Some(value),
        spec_environment_assignments(args).contains(("WARP_TUI_CONVERSATION_ID"@, value))
            <==> args.conversation_id == Some(value),
        forall|i: int|
            0 <= i < spec_environment_assignments(args).len() ==> {
                let (name, v) = #[trigger] spec_environment_assignments(args)[i];
                (name == "WARP_TUI_PROMPT"@ && args.prompt == Some(v)) || (name
                    == "WARP_TUI_CONVERSATION_ID"@ && args.conversation_id == Some(v))
            },
{
    reveal_strlit("WARP_TUI_PROMPT");
    reveal_strlit("WARP_TUI_CONVERSATION_ID");
    let e = spec_environment_assignments(args);
    assert("WARP_TUI_PROMPT"@.len() != "WARP_TUI_CONVERSATION_ID"@.len());
    if let Some(p) = args.prompt {
        assert(e[0] == ("WARP_TUI_PROMPT"@, p));
    }
    if let Some(c) = args.conversation_id {
        assert(e[e.len() - 1] == ("WARP_TUI_CONVERSATION_ID"@, c));
    }
    if e.contains(("WARP_TUI_PROMPT"@, value)) {
        let i = choose|i: int| 0 <= i < e.len() && e[i] == ("WARP_TUI_PROMPT"@, value);
        assert(e[i] == ("WARP_TUI_PROMPT"@, value));
    }
    if e.contains(("WARP_TUI_CONVERSATION_ID"@, value)) {
        let i = choose|i: int| 0 <= i < e.len() && e[i] == ("WARP_TUI_CONVERSATION_ID"@, value);
        assert(e[i] == ("WARP_TUI_CONVERSATION_ID"@, value));
    }
}

/// Lists the variables to set, name then value, for the parsed arguments:
/// the prompt first, then the conversation id, each only where given.
pub fn environment_assignments(args: TuiArgs) -> (assignments: Vec<(String, String)>)
    ensures
        assignments.deep_view() == spec_environment_assignments(args@),
{
    let mut assignments: Vec<(String, String)> = Vec::new();
    if let Some(prompt) = args.prompt {
        assignments.push((String::from_str(PROMPT_ENV), prompt));
    }
    if let Some(conversation_id) = args.conversation_id {
        assignments.push((String::from_str(CONVERSATION_ID_ENV), conversation_id));
    }
    assert(assignments.deep_view() =~= spec_environment_assignments(args@));
    assignments
}

} // verus!
