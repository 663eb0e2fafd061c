//! The command line: words are split into flags and values, then fed to the
//! builder of the main command; global flags become commands of their own.

use vstd::prelude::*;
use crate::commands::{get_command_builder, is_command_name, Command, CommandBuilder, Help, SetVerbose, HELP, VERBOSE};
use crate::text::{chars_of, str_eq, string_of, views_of};

verus! {

/// A word of the command line, or one letter of a group of flags.
pub struct Token {
    pub is_flag: bool,
    pub text: String,
}

/// The tokens of one word: each letter after a leading `-` is a flag;
/// another word is a value.
pub open spec fn word_tokens(w: Seq<char>) -> Seq<(bool, Seq<char>)> {
    if w.len() > 0 && w[0] == '-' {
        w.drop_first().map_values(|c: char| (true, seq![c]))
    } else {
        seq![(false, w)]
    }
}

/// The tokens of the words, up to a word that is a lone `-`, which ends
/// the line.
pub open spec fn tokens_of(words: Seq<Seq<char>>) -> Seq<(bool, Seq<char>)>
    decreases words.len(),
{
    if words.len() == 0 {
        Seq::empty()
    } else if words[0] == seq!['-'] {
        Seq::empty()
    } else {
        word_tokens(words[0]) + tokens_of(words.drop_first())
    }
}

/// The views of tokens.
pub open spec fn tokens_view(ts: Seq<Token>) -> Seq<(bool, Seq<char>)> {
    ts.map_values(|t: Token| (t.is_flag, t.text@))
}

/// The tokens of a command line, the program's name left out.
pub fn lex(args: &Vec<String>) -> (r: Vec<Token>)
    ensures
        args@.len() == 0 ==> r@.len() == 0,
        args@.len() > 0 ==> tokens_view(r@) == tokens_of(args@.map_values(|s: String| s@).drop_first()),
{
    let mut out: Vec<Token> = Vec::new();
    if args.len() == 0 {
        return out;
    }
    let ghost words = args@.map_values(|s: String| s@).drop_first();
    let mut i: usize = 1;
    assert(words.subrange(0, words.len() as int) == words);
    assert(tokens_view(out@) =~= Seq::<(bool, Seq<char>)>::empty());
    assert(tokens_view(out@) + tokens_of(words) =~= tokens_of(words));
    while i < args.len()
        invariant
            1 <= i <= args@.len(),
            words == args@.map_values(|s: String| s@).drop_first(),
            tokens_of(words) == tokens_view(out@) + tokens_of(words.subrange(i - 1, words.len() as int)),
        decreases args@.len() - i,
    {
        let ghost rest = words.subrange(i - 1, words.len() as int);
        let w = chars_of(args[i].as_str());
        assert(rest[0] == w@);
        assert(rest.drop_first() == words.subrange(i as int, words.len() as int));
        if w.len() == 1 && w[0] == '-' {
            assert(w@ =~= seq!['-']);
            assert(tokens_view(out@) + tokens_of(rest) =~= tokens_view(out@));
            assert(words.subrange(words.len() as int, words.len() as int) =~= Seq::<Seq<char>>::empty());
            return out;
        }
        if w.len() > 0 && w[0] == '-' {
            let ghost before = tokens_view(out@);
            let mut k: usize = 1;
            while k < w.len()
                invariant
                    1 <= k <= w@.len(),
                    w@.len() > 0 && w@[0] == '-',
                    tokens_view(out@) == before + w@.drop_first().subrange(0, k - 1).map_values(|c: char| (true, seq![c])),
                decreases w@.len() - k,
            {
                let mut one: Vec<char> = Vec::new();
                one.push(w[k]);
                let t = Token { is_flag: true, text: string_of(one.as_slice()) };
                let ghost o = out@;
                out.push(t);
                proof {
                    assert(one@ =~= seq![w@[k as int]]);
                    assert(tokens_view(out@) =~= tokens_view(o).push((true, seq![w@[k as int]])));
                    assert(w@.drop_first().subrange(0, k as int) =~= w@.drop_first().subrange(0, k - 1).push(w@[k as int]));
                    assert(w@.drop_first().subrange(0, k as int).map_values(|c: char| (true, seq![c])) =~= w@.drop_first().subrange(0, k - 1).map_values(|c: char| (true, seq![c])).push((true, seq![w@[k as int]])));
                }
                k = k + 1;
            }
            assert(w@.drop_first().subrange(0, w@.len() - 1) =~= w@.drop_first());
            assert(tokens_view(out@) =~= before + word_tokens(w@));
        } else {
            let ghost o = out@;
            out.push(Token { is_flag: false, text: string_of(w.as_slice()) });
            assert(tokens_view(out@) =~= tokens_view(o) + word_tokens(w@));
        }
        assert(tokens_of(rest) == word_tokens(w@) + tokens_of(rest.drop_first()));
        i = i + 1;
    }
    assert(words.subrange(words.len() as int, words.len() as int) =~= Seq::<Seq<char>>::empty());
    assert(tokens_view(out@) + Seq::<(bool, Seq<char>)>::empty() =~= tokens_view(out@));
    out
}

/// Where parsing stands.
struct ParserState {
    last_flag: Option<String>,
    main_command: Option<CommandBuilder>,
    result: Vec<Command>,
}

/// The command of a global flag: `v` makes the output more verbose, `h`
/// shows the help.
fn parse_global_option(flag: &str) -> (r: Result<Command, String>)
    ensures
        flag@ == VERBOSE@ ==> (r matches Ok(c) && c is SetVerbose),
        flag@ == HELP@ ==> (r matches Ok(c) && c is Help),
        flag@ != VERBOSE@ && flag@ != HELP@ ==> r is Err,
{
    proof {
        reveal_strlit("v");
        reveal_strlit("h");
        assert(VERBOSE@[0] != HELP@[0]);
    }
    if str_eq(flag, VERBOSE) {
        Ok(Command::SetVerbose(SetVerbose::new()))
    } else if str_eq(flag, HELP) {
        Ok(Command::Help(Help::new()))
    } else {
        Err("Parsing failed due to unknown option".to_owned())
    }
}

/// A flag: it belongs to the main command when that command knows it, and
/// is a global flag otherwise. A flag that expects a value waits for it.
fn parse_flag(state: &mut ParserState, flag: &str) -> (r: Result<Option<Command>, String>)
    ensures
        old(state).last_flag is Some ==> r is Err,
        old(state).main_command is None && old(state).last_flag is None ==> (r is Ok <==> (flag@ == VERBOSE@
            || flag@ == HELP@)),
        r matches Ok(Some(c)) ==> (c is SetVerbose || c is Help),
        final(state).result == old(state).result,
        old(state).main_command is None && old(state).last_flag is None ==> {
            &&& final(state).main_command is None
            &&& final(state).last_flag is None
            &&& r is Ok ==> (r matches Ok(Some(c)) && (c is SetVerbose <==> flag@ == VERBOSE@))
        },
{
    proof {
        reveal_strlit("v");
        reveal_strlit("h");
        assert(VERBOSE@[0] != HELP@[0]);
    }
    if state.last_flag.is_some() {
        return Err("Expected a value for the previous flag".to_owned());
    }
    if let Some(main_command) = &mut state.main_command {
        if let Ok(requires_value) = main_command.requires_value(flag) {
            if requires_value {
                state.last_flag = Some(flag.to_owned());
            } else {
                let _ = main_command.add_flag(flag);
            }
            return Ok(None);
        }
    }
    match parse_global_option(flag) {
        Ok(c) => Ok(Some(c)),
        Err(e) => Err(e),
    }
}

/// A value: the main command's name when there is none yet, an argument of
/// the main command otherwise, or the value of the flag that waits for one.
fn parse_value(state: &mut ParserState, value: &str) -> (r: Result<Option<Command>, String>)
    ensures
        r matches Ok(c) ==> c is None,
        final(state).result == old(state).result,
        old(state).main_command is None && old(state).last_flag is Some ==> r is Err,
        old(state).main_command is None && old(state).last_flag is None ==> r is Ok,
        old(state).main_command is None && old(state).last_flag is None && !is_command_name(value@) ==> (
            final(state).main_command is None && final(state).last_flag is None),
{
    match &mut state.main_command {
        Some(main_command) => {
            let res = match &state.last_flag {
                Some(last_flag) => main_command.add_flag_and_value(last_flag.as_str(), value),
                None => main_command.add_value(value),
            };
            state.last_flag = None;
            match res {
                Ok(()) => Ok(None),
                Err(e) => Err(e.message_move()),
            }
        },
        None => {
            if state.last_flag.is_some() {
                return Err("Global options take no value".to_owned());
            }
            state.main_command = get_command_builder(value);
            Ok(None)
        },
    }
}

/// The texts of the flags among tokens, in order.
pub open spec fn flag_texts(ts: Seq<(bool, Seq<char>)>) -> Seq<Seq<char>>
    decreases ts.len(),
{
    if ts.len() == 0 {
        Seq::empty()
    } else {
        flag_texts(ts.drop_last()) + if ts.last().0 {
            seq![ts.last().1]
        } else {
            Seq::<Seq<char>>::empty()
        }
    }
}

/// No value among the tokens is the name of a command.
pub open spec fn names_no_command(ts: Seq<(bool, Seq<char>)>) -> bool {
    forall|i: int| 0 <= i < ts.len() && !(#[trigger] ts[i]).0 ==> !is_command_name(ts[i].1)
}

/// Every flag among the tokens is a global one, `v` or `h`.
pub open spec fn only_global_flags(ts: Seq<(bool, Seq<char>)>) -> bool {
    forall|i: int| 0 <= i < ts.len() && (#[trigger] ts[i]).0 ==> ts[i].1 == VERBOSE@ || ts[i].1 == HELP@
}

/// The tokens of a command line, the program's name left out.
pub open spec fn line_tokens(command_line: Seq<String>) -> Seq<(bool, Seq<char>)> {
    tokens_of(command_line.map_values(|s: String| s@).drop_first())
}

/// The commands of a command line, the global ones first and the main one
/// last, or what is wrong with it. A line that begins with a flag other
/// than the global ones is refused. A line where no value names a command
/// is accepted exactly when its flags are all global, and gives one command
/// for each flag, in order.
pub fn parse_command_line(command_line: Vec<String>) -> (r: Result<Vec<Command>, String>)
    ensures
        command_line@.len() <= 1 ==> (r matches Ok(v) && v@.len() == 0),
        r matches Ok(v) ==> forall|k: int| 0 <= k < v@.len() - 1 ==> (#[trigger] v@[k] is SetVerbose || v@[k] is Help),
        command_line@.len() > 1 && line_tokens(command_line@).len() > 0 && line_tokens(command_line@)[0].0
            && line_tokens(command_line@)[0].1 != VERBOSE@ && line_tokens(command_line@)[0].1 != HELP@ ==> r is Err,
        command_line@.len() > 1 && names_no_command(line_tokens(command_line@)) ==> {
            &&& r is Ok <==> only_global_flags(line_tokens(command_line@))
            &&& r matches Ok(v) ==> v@.len() == flag_texts(line_tokens(command_line@)).len()
                && forall|k: int| 0 <= k < v@.len() ==> (#[trigger] v@[k] is SetVerbose
                    <==> flag_texts(line_tokens(command_line@))[k] == VERBOSE@)
        },
{
    if command_line.len() <= 1 {
        return Ok(Vec::new());
    }
    let tokens = lex(&command_line);
    let ghost ts = line_tokens(command_line@);
    assert(tokens_view(tokens@) == ts);
    assert(ts.subrange(0, 0) =~= Seq::<(bool, Seq<char>)>::empty());
    let mut state = ParserState { last_flag: None, main_command: None, result: Vec::new() };
    let mut i: usize = 0;
    while i < tokens.len()
        invariant
            0 <= i <= tokens@.len(),
            command_line@.len() > 1,
            forall|k: int| 0 <= k < state.result@.len() ==> (#[trigger] state.result@[k] is SetVerbose
                || state.result@[k] is Help),
            ts == line_tokens(command_line@),
            tokens_view(tokens@) == ts,
            i == 0 ==> state.main_command is None && state.last_flag is None,
            i > 0 ==> !(ts[0].0 && ts[0].1 != VERBOSE@ && ts[0].1 != HELP@),
            names_no_command(ts) ==> {
                &&& state.main_command is None
                &&& state.last_flag is None
                &&& only_global_flags(ts.subrange(0, i as int))
                &&& state.result@.len() == flag_texts(ts.subrange(0, i as int)).len()
                &&& forall|k: int| 0 <= k < state.result@.len() ==> (#[trigger] state.result@[k] is SetVerbose
                    <==> flag_texts(ts.subrange(0, i as int))[k] == VERBOSE@)
            },
        decreases tokens@.len() - i,
    {
        let t = &tokens[i];
        let ghost pre = ts.subrange(0, i as int);
        let ghost next = ts.subrange(0, i + 1);
        proof {
            assert(ts[i as int] == (t.is_flag, t.text@));
            assert(next.drop_last() == pre);
            assert(next.last() == ts[i as int]);
        }
        let res = if t.is_flag {
            parse_flag(&mut state, t.text.as_str())
        } else {
            parse_value(&mut state, t.text.as_str())
        };
        match res {
            Ok(Some(c)) => {
                proof {
                    if names_no_command(ts) {
                        assert(t.is_flag);
                        assert(flag_texts(next) =~= flag_texts(pre).push(t.text@));
                    }
                }
                state.result.push(c);
            },
            Ok(None) => {
                proof {
                    if names_no_command(ts) {
                        assert(!t.is_flag);
                        assert(flag_texts(next) =~= flag_texts(pre));
                    }
                }
            },
            Err(e) => {
                proof {
                    if names_no_command(ts) {
                        assert(t.is_flag);
                        assert(!only_global_flags(ts));
                    }
                }
                return Err(e);
            },
        }
        proof {
            if names_no_command(ts) {
                assert forall|j: int| 0 <= j < next.len() && (#[trigger] next[j]).0 implies next[j].1 == VERBOSE@
                    || next[j].1 == HELP@ by {
                    if j < pre.len() {
                        assert(next[j] == pre[j]);
                    }
                }
            }
        }
        i = i + 1;
    }
    assert(ts.subrange(0, tokens@.len() as int) == ts);
    let ParserState { last_flag: _, main_command, result } = state;
    let mut result = result;
    match main_command {
        None => Ok(result),
        Some(builder) => match builder.build() {
            Ok(c) => {
                result.push(c);
                Ok(result)
            },
            Err(e) => {
                let mut msg = chars_of("Cannot execute command ");
                crate::text::extend_chars(&mut msg, &chars_of(builder.name()));
                crate::text::extend_chars(&mut msg, &chars_of(": "));
                crate::text::extend_chars(&mut msg, &chars_of(e.message()));
                Err(string_of(msg.as_slice()))
            },
        },
    }
}

} // verus!
