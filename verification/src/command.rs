//! Commands as they are written in the configuration.

use crate::text::{
    copy_words, join, join_words, law_join_undoes_split, law_pieces_hold_no_space, split_at_spaces,
    split_spaces,
};
use vstd::prelude::*;

verus! {

/// A command name followed by its arguments.
#[derive(Debug)]
pub struct NonEmptyCommandArgsVec {
    words: Vec<String>,
}

impl View for NonEmptyCommandArgsVec {
    type V = Seq<Seq<char>>;

    closed spec fn view(&self) -> Seq<Seq<char>> {
        self.words.deep_view()
    }
}

impl NonEmptyCommandArgsVec {
    #[verifier::type_invariant]
    spec fn has_a_name(self) -> bool {
        self.words@.len() > 0
    }

    /// Takes the list as a command, unless it is empty.
    pub fn new(words: Vec<String>) -> (command: Option<NonEmptyCommandArgsVec>)
        ensures
            command is Some <==> words@.len() > 0,
            command matches Some(c) ==> c@ == words.deep_view(),
    {
        if words.len() == 0 {
            None
        } else {
            Some(NonEmptyCommandArgsVec { words })
        }
    }

    /// The command name and its arguments, as one list. It is never empty.
    pub fn words(&self) -> (words: &Vec<String>)
        ensures
            words.deep_view() == self@,
            self@.len() > 0,
    {
        proof {
            use_type_invariant(self);
        }
        &self.words
    }
}

/// A command name with arguments, in one of the forms that the configuration accepts.
#[derive(Debug)]
pub enum CommandNameAndArgs {
    /// A line of text: the words between its spaces.
    String(String),
    /// A list of words.
    Vec(NonEmptyCommandArgsVec),
    /// A list of words, with variables to set in the environment of the command.
    Structured { env: Vec<(String, String)>, command: NonEmptyCommandArgsVec },
}

/// What a [`CommandNameAndArgs`] says.
pub enum CommandView {
    String(Seq<char>),
    Vec(Seq<Seq<char>>),
    Structured { env: Seq<(Seq<char>, Seq<char>)>, command: Seq<Seq<char>> },
}

impl View for CommandNameAndArgs {
    type V = CommandView;

    open spec fn view(&self) -> CommandView {
        match *self {
            CommandNameAndArgs::String(line) => CommandView::String(line@),
            CommandNameAndArgs::Vec(command) => CommandView::Vec(command@),
            CommandNameAndArgs::Structured { env, command } => CommandView::Structured {
                env: env.deep_view(),
                command: command@,
            },
        }
    }
}

/// How assignments to environment variables are written in front of a command.
pub open spec fn env_prefix(env: Seq<(Seq<char>, Seq<char>)>) -> Seq<char>
    decreases env.len(),
{
    if env.len() == 0 {
        seq![]
    } else {
        env_prefix(env.drop_last()) + env.last().0 + seq!['='] + env.last().1 + seq![' ']
    }
}

impl CommandView {
    /// The command name and its arguments, as one list.
    pub open spec fn words(self) -> Seq<Seq<char>> {
        match self {
            CommandView::String(line) => split_at_spaces(line),
            CommandView::Vec(command) => command,
            CommandView::Structured { env, command } => command,
        }
    }

    /// The command as one line of text.
    pub open spec fn line(self) -> Seq<char> {
        match self {
            CommandView::String(line) => line,
            CommandView::Vec(command) => join(command, ' '),
            CommandView::Structured { env, command } => env_prefix(env) + join(command, ' '),
        }
    }
}

impl CommandNameAndArgs {
    /// The command name and its arguments. The command name may be an empty string, and so may each
    /// argument.
    pub fn split_name_and_args(&self) -> (name_and_args: (String, Vec<String>))
        ensures
            self@.words().len() > 0,
            name_and_args.0@ == self@.words()[0],
            name_and_args.1.deep_view() == self@.words().skip(1),
    {
        match self {
            CommandNameAndArgs::String(line) => {
                let words = split_spaces(line.as_str());
                (words[0].clone(), copy_words(&words, 1))
            },
            CommandNameAndArgs::Vec(command) => {
                let words = command.words();
                (words[0].clone(), copy_words(words, 1))
            },
            CommandNameAndArgs::Structured { env, command } => {
                let words = command.words();
                (words[0].clone(), copy_words(words, 1))
            },
        }
    }

    /// The command as one line of text.
    pub fn to_string(&self) -> (line: String)
        ensures
            line@ == self@.line(),
    {
        match self {
            CommandNameAndArgs::String(line) => line.clone(),
            CommandNameAndArgs::Vec(command) => join_words(command.words(), ' '),
            CommandNameAndArgs::Structured { env, command } => {
                let mut line: String = String::new();
                for i in 0..env.len()
                    invariant
                        line@ == env_prefix(env.deep_view().take(i as int)),
                {
                    let ghost front = env.deep_view().take(i + 1);
                    assert(front.drop_last() =~= env.deep_view().take(i as int));
                    line.append(env[i].0.as_str());
                    line.push('=');
                    line.append(env[i].1.as_str());
                    line.push(' ');
                    assert(line@ =~= env_prefix(front));
                }
                assert(env.deep_view().take(env@.len() as int) =~= env.deep_view());
                let command_line = join_words(command.words(), ' ');
                line.append(command_line.as_str());
                line
            },
        }
    }
}

impl Clone for NonEmptyCommandArgsVec {
    fn clone(&self) -> (copy: NonEmptyCommandArgsVec)
        ensures
            copy@ == self@,
    {
        proof {
            use_type_invariant(self);
        }
        let words = copy_words(&self.words, 0);
        assert(words.deep_view() =~= self.words.deep_view());
        assert(words.deep_view().len() == words@.len());
        NonEmptyCommandArgsVec { words }
    }
}

impl Clone for CommandNameAndArgs {
    fn clone(&self) -> (copy: CommandNameAndArgs)
        ensures
            copy@ == self@,
    {
        match self {
            CommandNameAndArgs::String(line) => CommandNameAndArgs::String(line.clone()),
            CommandNameAndArgs::Vec(command) => CommandNameAndArgs::Vec(command.clone()),
            CommandNameAndArgs::Structured { env, command } => {
                let mut env_copy: Vec<(String, String)> = Vec::new();
                for i in 0..env.len()
                    invariant
                        env_copy@.len() == i,
                        forall|j: int| 0 <= j < i ==> #[trigger] env_copy@[j] == env@[j],
                {
                    env_copy.push((env[i].0.clone(), env[i].1.clone()));
                }
                assert(env_copy@ =~= env@);
                CommandNameAndArgs::Structured { env: env_copy, command: command.clone() }
            },
        }
    }
}

/// A command given as a line of text is that line again when its words are joined.
pub proof fn law_line_is_its_words(line: Seq<char>)
    ensures
        join(CommandView::String(line).words(), ' ') == CommandView::String(line).line(),
{
    law_join_undoes_split(line);
}

/// The words of a command are those that it lists, or those between the spaces of its line: no word
/// of a line holds a space, and with a space between each two of them they are the line.
pub proof fn law_words_are_those_of_the_command(command: CommandView)
    ensures
        command matches CommandView::String(line) ==> {
            &&& command.words().len() > 0
            &&& join(command.words(), ' ') == line
            &&& forall|i: int|
                0 <= i < command.words().len() ==> !(#[trigger] command.words()[i]).contains(' ')
        },
        command matches CommandView::Vec(words) ==> command.words() == words,
        command matches CommandView::Structured { env, command: words } ==> command.words()
            == words,
{
    if let CommandView::String(line) = command {
        law_join_undoes_split(line);
        law_pieces_hold_no_space(line);
    }
}

/// The line of a command is what was written, or its words with spaces between them. An environment
/// stands in front, each variable with `=` and its value, and a space behind.
pub proof fn law_lines_show_the_whole_command(
    command: CommandView,
    a: Seq<(Seq<char>, Seq<char>)>,
    b: Seq<(Seq<char>, Seq<char>)>,
    name: Seq<char>,
    value: Seq<char>,
)
    ensures
        command matches CommandView::String(line) ==> command.line() == line,
        command matches CommandView::Vec(words) ==> command.line() == join(words, ' '),
        command matches CommandView::Structured { env, command: words } ==> command.line()
            == env_prefix(env) + join(words, ' '),
        env_prefix(Seq::<(Seq<char>, Seq<char>)>::empty()) == Seq::<char>::empty(),
        env_prefix(seq![(name, value)]) == name + seq!['='] + value + seq![' '],
        env_prefix(a + b) == env_prefix(a) + env_prefix(b),
    decreases b.len(),
{
    let one = seq![(name, value)];
    reveal_with_fuel(env_prefix, 2);
    assert(one.drop_last() =~= Seq::<(Seq<char>, Seq<char>)>::empty());
    assert(env_prefix(one) =~= name + seq!['='] + value + seq![' ']);
    if b.len() == 0 {
        assert(a + b =~= a);
        assert(env_prefix(a + b) =~= env_prefix(a) + env_prefix(b));
    } else {
        assert((a + b).drop_last() =~= a + b.drop_last());
        assert((a + b).last() == b.last());
        law_lines_show_the_whole_command(command, a, b.drop_last(), name, value);
        assert(env_prefix(a + b) =~= env_prefix(a) + env_prefix(b));
    }
}

/// The view of a command keeps its form and all its words.
pub proof fn law_command_views_are_complete(command: CommandNameAndArgs)
    ensures
        match command {
            CommandNameAndArgs::String(line) => command@ == CommandView::String(line@),
            CommandNameAndArgs::Vec(words) => command@ == CommandView::Vec(words@),
            CommandNameAndArgs::Structured { env, command: words } => {
                &&& command@ matches CommandView::Structured { env: pairs, command: viewed }
                &&& viewed == words@
                &&& pairs.len() == env@.len()
                &&& forall|i: int|
                    0 <= i < env@.len() ==> #[trigger] pairs[i] == (env@[i].0@, env@[i].1@)
            },
        },
{
}

} // verus!
