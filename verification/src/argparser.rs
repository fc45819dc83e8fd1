//! Classification of command-line tokens into options, flags, a command and
//! its arguments.
//!
//! A token is read by its leading dashes alone:
//!
//! * `--name` is an option, recorded as `name`;
//! * `-abc` is a group of flags, recorded as `a`, `b` and `c`;
//! * anything else is positional.
//!
//! The first positional token is the command, the others are its arguments.

use vstd::prelude::*;
use vstd::string::StrSliceExecFns;

verus! {

/// A command line after classification.
#[derive(Clone, Debug, PartialEq, Eq)]
pub struct Arguments {
    /// Names of the `--name` tokens, in order, without their dashes.
    pub options: Vec<String>,
    /// Letters of the `-abc` tokens, in order, one letter per entry.
    pub flags: Vec<String>,
    /// The first positional token, or the empty string if there is none.
    pub command: String,
    /// The positional tokens after the command.
    pub arguments: Vec<String>,
}

/// The mathematical content of [`Arguments`].
pub struct ArgumentsView {
    pub options: Seq<Seq<char>>,
    pub flags: Seq<Seq<char>>,
    pub command: Seq<char>,
    pub arguments: Seq<Seq<char>>,
}

impl ArgumentsView {
    /// Every flag is a single character.
    pub open spec fn well_formed(self) -> bool {
        forall|i: int| 0 <= i < self.flags.len() ==> (#[trigger] self.flags[i]).len() == 1
    }
}

impl View for Arguments {
    type V = ArgumentsView;

    open spec fn view(&self) -> ArgumentsView {
        ArgumentsView {
            options: self.options.deep_view(),
            flags: self.flags.deep_view(),
            command: self.command@,
            arguments: self.arguments.deep_view(),
        }
    }
}

/// A token that starts with two dashes.
pub open spec fn is_option(token: Seq<char>) -> bool {
    token.len() >= 2 && token[0] == '-' && token[1] == '-'
}

/// A token that starts with exactly one dash.
pub open spec fn is_flag_group(token: Seq<char>) -> bool {
    token.len() >= 1 && token[0] == '-' && !is_option(token)
}

/// A token that does not start with a dash.
pub open spec fn is_positional(token: Seq<char>) -> bool {
    token.len() == 0 || token[0] != '-'
}

/// What an option token contributes: the token without its two dashes.
pub open spec fn option_name(token: Seq<char>) -> Seq<char> {
    token.skip(2)
}

/// What a flag group contributes: each character after the dash, on its own.
pub open spec fn flag_letters(token: Seq<char>) -> Seq<Seq<char>> {
    token.skip(1).map_values(|c: char| seq![c])
}

pub open spec fn option_tokens(tokens: Seq<Seq<char>>) -> Seq<Seq<char>> {
    tokens.filter(|t: Seq<char>| is_option(t))
}

pub open spec fn flag_tokens(tokens: Seq<Seq<char>>) -> Seq<Seq<char>> {
    tokens.filter(|t: Seq<char>| is_flag_group(t))
}

pub open spec fn positional_tokens(tokens: Seq<Seq<char>>) -> Seq<Seq<char>> {
    tokens.filter(|t: Seq<char>| is_positional(t))
}

/// The option names that a token sequence yields.
pub open spec fn options_of(tokens: Seq<Seq<char>>) -> Seq<Seq<char>> {
    option_tokens(tokens).map_values(|t: Seq<char>| option_name(t))
}

/// The flags that a token sequence yields.
pub open spec fn flags_of(tokens: Seq<Seq<char>>) -> Seq<Seq<char>> {
    flag_tokens(tokens).map_values(|t: Seq<char>| flag_letters(t)).flatten()
}

/// The classification of a whole token sequence.
pub open spec fn parse(tokens: Seq<Seq<char>>) -> ArgumentsView {
    let positionals = positional_tokens(tokens);
    ArgumentsView {
        options: options_of(tokens),
        flags: flags_of(tokens),
        command: if positionals.len() > 0 {
            positionals[0]
        } else {
            Seq::empty()
        },
        arguments: if positionals.len() > 0 {
            positionals.skip(1)
        } else {
            Seq::empty()
        },
    }
}

/// Every token belongs to exactly one of the three classes.
pub proof fn lemma_one_class(token: Seq<char>)
    ensures
        is_option(token) || is_flag_group(token) || is_positional(token),
        !(is_option(token) && is_flag_group(token)),
        !(is_option(token) && is_positional(token)),
        !(is_flag_group(token) && is_positional(token)),
{
}

/// A token sequence is classified token by token: one more token at the end
/// adds its name to the options if it is an option, its letters to the flags
/// if it is a flag group, and itself to the positional tokens if it is
/// positional, and leaves everything else as it was.
pub proof fn lemma_classes_push(tokens: Seq<Seq<char>>, token: Seq<char>)
    ensures
        options_of(tokens.push(token)) == if is_option(token) {
            options_of(tokens).push(option_name(token))
        } else {
            options_of(tokens)
        },
        flags_of(tokens.push(token)) == if is_flag_group(token) {
            flags_of(tokens) + flag_letters(token)
        } else {
            flags_of(tokens)
        },
        positional_tokens(tokens.push(token)) == if is_positional(token) {
            positional_tokens(tokens).push(token)
        } else {
            positional_tokens(tokens)
        },
{
    tokens.lemma_filter_push(token, |t: Seq<char>| is_option(t));
    tokens.lemma_filter_push(token, |t: Seq<char>| is_flag_group(t));
    tokens.lemma_filter_push(token, |t: Seq<char>| is_positional(t));
    if is_option(token) {
        assert(options_of(tokens.push(token)) =~= options_of(tokens).push(option_name(token)));
    }
    if is_flag_group(token) {
        let groups = flag_tokens(tokens).map_values(|t: Seq<char>| flag_letters(t));
        assert(flag_tokens(tokens.push(token)).map_values(|t: Seq<char>| flag_letters(t))
            =~= groups.push(flag_letters(token)));
        groups.lemma_flatten_push(flag_letters(token));
    }
}

/// Every token is counted in exactly one class, each option token yields one
/// option, and the positional tokens are the command followed by the
/// arguments.
pub proof fn lemma_every_token_counted(tokens: Seq<Seq<char>>)
    ensures
        option_tokens(tokens).len() + flag_tokens(tokens).len() + positional_tokens(tokens).len()
            == tokens.len(),
        options_of(tokens).len() == option_tokens(tokens).len(),
        positional_tokens(tokens).len() > 0 ==> positional_tokens(tokens) == seq![
            parse(tokens).command,
        ] + parse(tokens).arguments,
        positional_tokens(tokens).len() == 0 ==> parse(tokens).command.len() == 0 && parse(
            tokens,
        ).arguments.len() == 0,
    decreases tokens.len(),
{
    reveal(Seq::filter);
    if tokens.len() > 0 {
        lemma_every_token_counted(tokens.drop_last());
        lemma_one_class(tokens.last());
    }
    if positional_tokens(tokens).len() > 0 {
        assert(positional_tokens(tokens) =~= seq![parse(tokens).command] + parse(
            tokens,
        ).arguments);
    }
}

/// The name of every option token is among the options.
pub proof fn lemma_option_is_kept(tokens: Seq<Seq<char>>, i: int)
    requires
        0 <= i < tokens.len(),
        is_option(tokens[i]),
    ensures
        options_of(tokens).contains(option_name(tokens[i])),
    decreases tokens.len(),
{
    let init = tokens.drop_last();
    assert(tokens =~= init.push(tokens.last()));
    lemma_classes_push(init, tokens.last());
    if i == tokens.len() - 1 {
        assert(options_of(tokens)[options_of(init).len() as int] == option_name(tokens[i]));
    } else {
        lemma_option_is_kept(init, i);
        let k = choose|k: int|
            0 <= k < options_of(init).len() && options_of(init)[k] == option_name(tokens[i]);
        assert(options_of(tokens)[k] == option_name(tokens[i]));
    }
}

/// Every character that follows the dash of a flag group is among the flags,
/// on its own.
pub proof fn lemma_flag_is_kept(tokens: Seq<Seq<char>>, i: int, j: int)
    requires
        0 <= i < tokens.len(),
        is_flag_group(tokens[i]),
        1 <= j < tokens[i].len(),
    ensures
        flags_of(tokens).contains(seq![tokens[i][j]]),
    decreases tokens.len(),
{
    let init = tokens.drop_last();
    assert(tokens =~= init.push(tokens.last()));
    lemma_classes_push(init, tokens.last());
    if i == tokens.len() - 1 {
        assert(flag_letters(tokens[i])[j - 1] == seq![tokens[i][j]]);
        assert(flags_of(tokens)[flags_of(init).len() + j - 1] == seq![tokens[i][j]]);
    } else {
        lemma_flag_is_kept(init, i, j);
        let k = choose|k: int|
            0 <= k < flags_of(init).len() && flags_of(init)[k] == seq![tokens[i][j]];
        assert(flags_of(tokens)[k] == seq![tokens[i][j]]);
    }
}

/// Every flag is a single character.
pub proof fn lemma_flags_are_letters(tokens: Seq<Seq<char>>)
    ensures
        parse(tokens).well_formed(),
    decreases tokens.len(),
{
    let flags = flags_of(tokens);
    if tokens.len() == 0 {
        reveal(Seq::filter);
        assert(flag_tokens(tokens).map_values(|t: Seq<char>| flag_letters(t)) =~= Seq::empty());
        assert(flags.len() == 0);
    } else {
        let init = tokens.drop_last();
        let last = tokens.last();
        assert(tokens =~= init.push(last));
        lemma_classes_push(init, last);
        lemma_flags_are_letters(init);
        assert forall|i: int| 0 <= i < flags.len() implies (#[trigger] flags[i]).len() == 1 by {
            if i < flags_of(init).len() {
                assert(flags[i] == parse(init).flags[i]);
            } else {
                assert(flags[i] == flag_letters(last)[i - flags_of(init).len()]);
            }
        }
    }
}

/// Classifies the tokens of a command line, program name excluded.
///
/// Every token sequence is accepted. A lone `-` yields no flag, and a lone
/// `--` yields one option with an empty name.
pub fn argparse(args: Vec<String>) -> (parsed: Arguments)
    ensures
        parsed@ == parse(args.deep_view()),
        parsed@.well_formed(),
{
    let ghost tokens = args.deep_view();
    let mut options: Vec<String> = Vec::new();
    let mut flags: Vec<String> = Vec::new();
    let mut arguments: Vec<String> = Vec::new();

    let mut i: usize = 0;
    while i < args.len()
        invariant
            i <= args.len(),
            tokens == args.deep_view(),
            options.deep_view() == options_of(tokens.take(i as int)),
            flags.deep_view() == flags_of(tokens.take(i as int)),
            arguments.deep_view() == positional_tokens(tokens.take(i as int)),
        decreases args.len() - i,
    {
        let token = args[i].as_str();
        let ghost seen = tokens.take(i as int);
        proof {
            assert(tokens.take(i + 1) =~= seen.push(token@));
            lemma_classes_push(seen, token@);
        }
        let n = token.unicode_len();
        if n >= 2 && token.get_char(0) == '-' && token.get_char(1) == '-' {
            let ghost before = options.deep_view();
            options.push(token.substring_char(2, n).to_owned());
            assert(options.deep_view() =~= before.push(option_name(token@)));
        } else if n >= 1 && token.get_char(0) == '-' {
            let ghost before = flags.deep_view();
            let mut j: usize = 1;
            while j < n
                invariant
                    1 <= j <= n,
                    n == token@.len(),
                    flags.deep_view() == before + flag_letters(token@).take(j - 1),
                decreases n - j,
            {
                let ghost so_far = flags.deep_view();
                let letter = token.substring_char(j, j + 1);
                assert(letter@ =~= seq![token@[j as int]]);
                flags.push(letter.to_owned());
                assert(flags.deep_view() =~= so_far.push(seq![token@[j as int]]));
                assert(flag_letters(token@).take(j as int) =~= flag_letters(token@).take(
                    j - 1,
                ).push(seq![token@[j as int]]));
                j += 1;
            }
            assert(flag_letters(token@).take(n - 1) =~= flag_letters(token@));
        } else {
            let ghost before = arguments.deep_view();
            arguments.push(args[i].clone());
            assert(arguments.deep_view() =~= before.push(token@));
        }
        i += 1;
    }
    assert(tokens.take(i as int) =~= tokens);

    let ghost positionals = arguments.deep_view();
    let command = if arguments.len() > 0 {
        let first = arguments.remove(0);
        assert(arguments.deep_view() =~= positionals.skip(1));
        first
    } else {
        assert(arguments.deep_view() =~= Seq::<Seq<char>>::empty());
        String::new()
    };
    proof {
        lemma_flags_are_letters(tokens);
    }
    Arguments { options, flags, command, arguments }
}

} // verus!
