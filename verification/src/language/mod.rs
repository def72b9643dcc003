pub mod bundled;

pub use bundled::{cpp, java, javascript, python, rust, typescript};

use vstd::prelude::*;
use vstd::string::{StrSliceExecFns, StringExecFns};

verus! {

/// How programs in one language are built and started.
///
/// The two templates are argument vectors: the first element names the
/// executable, the rest are its arguments. Every `{main}` in them stands for
/// the program's logical name. A language without a compile template is
/// interpreted.
#[derive(Debug, Clone, Copy)]
pub struct Language {
    pub compile_args: Option<&'static [&'static str]>,
    pub run_args: &'static [&'static str],
    pub extension: &'static str,
}

/// The placeholder `{main}`.
pub open spec fn placeholder() -> Seq<char> {
    seq!['{', 'm', 'a', 'i', 'n', '}']
}

/// Whether the placeholder stands in `text` at position `at`.
pub open spec fn placeholder_at(text: Seq<char>, at: int) -> bool {
    &&& 0 <= at
    &&& at + 6 <= text.len()
    &&& text.subrange(at, at + 6) == placeholder()
}

/// `template` with every placeholder, taken from the left, replaced by
/// `name`.
pub open spec fn substitute(template: Seq<char>, name: Seq<char>) -> Seq<char>
    decreases template.len(),
{
    if template.len() == 0 {
        template
    } else if placeholder_at(template, 0) {
        name + substitute(template.skip(6), name)
    } else {
        template.take(1) + substitute(template.skip(1), name)
    }
}

/// The argument vector that `template` yields for the program `name`: each
/// element substituted by itself, none added, dropped, split or reordered.
pub open spec fn instantiate(template: Seq<Seq<char>>, name: Seq<char>) -> Seq<Seq<char>> {
    Seq::new(template.len(), |i: int| substitute(template[i], name))
}

fn is_placeholder_at(text: &str, at: usize, len: usize) -> (found: bool)
    requires
        len == text@.len(),
        at < len,
    ensures
        found == placeholder_at(text@, at as int),
{
    if len - at < 6 {
        return false;
    }
    let found = text.get_char(at) == '{' && text.get_char(at + 1) == 'm' && text.get_char(at + 2)
        == 'a' && text.get_char(at + 3) == 'i' && text.get_char(at + 4) == 'n' && text.get_char(
        at + 5,
    ) == '}';
    proof {
        let window = text@.subrange(at as int, at + 6);
        assert(found ==> window =~= placeholder());
        assert(window == placeholder() ==> window[0] == '{' && window[1] == 'm' && window[2] == 'a'
            && window[3] == 'i' && window[4] == 'n' && window[5] == '}');
    }
    found
}

/// Replaces every `{main}` in `template` by `name`.
pub fn fill(template: &str, name: &str) -> (filled: String)
    ensures
        filled@ == substitute(template@, name@),
{
    let len = template.unicode_len();
    let mut filled = String::new();
    let mut at: usize = 0;
    assert(template@.skip(0) =~= template@);
    assert(filled@ + substitute(template@, name@) =~= substitute(template@, name@));
    while at < len
        invariant
            at <= len,
            len == template@.len(),
            filled@ + substitute(template@.skip(at as int), name@) == substitute(
                template@,
                name@,
            ),
        decreases len - at,
    {
        let ghost before = filled@;
        let ghost rest = template@.skip(at as int);
        proof {
            if at + 6 <= len {
                assert(rest.subrange(0, 6) =~= template@.subrange(at as int, at + 6));
            }
        }
        if is_placeholder_at(template, at, len) {
            filled.append(name);
            at += 6;
            assert(rest.skip(6) =~= template@.skip(at as int));
        } else {
            filled.append(template.substring_char(at, at + 1));
            assert(rest.take(1) =~= template@.subrange(at as int, at + 1));
            at += 1;
            assert(rest.skip(1) =~= template@.skip(at as int));
        }
        assert(filled@ + substitute(template@.skip(at as int), name@) =~= before + substitute(
            rest,
            name@,
        ));
    }
    assert(template@.skip(len as int) =~= Seq::<char>::empty());
    assert(filled@ + Seq::<char>::empty() =~= filled@);
    filled
}

fn fill_all(template: &[&'static str], name: &str) -> (argv: Vec<String>)
    ensures
        argv.deep_view() == instantiate(template.deep_view(), name@),
{
    let mut argv: Vec<String> = Vec::new();
    let mut at: usize = 0;
    while at < template.len()
        invariant
            at <= template@.len(),
            argv@.len() == at,
            forall|i: int| 0 <= i < at ==> (#[trigger] argv@[i])@ == substitute(template@[i]@, name@),
        decreases template@.len() - at,
    {
        argv.push(fill(template[at], name));
        at += 1;
    }
    assert(argv.deep_view() =~= instantiate(template.deep_view(), name@));
    argv
}

impl Language {
    /// Whether programs in this language run from source.
    pub open spec fn interpreted(&self) -> bool {
        self.compile_args is None
    }

    /// The command that builds the program `main`, for a compiled language.
    pub open spec fn compile_command(&self, main: Seq<char>) -> Option<Seq<Seq<char>>> {
        match self.compile_args {
            Some(template) => Some(instantiate(template.deep_view(), main)),
            None => None,
        }
    }

    /// The command that starts the program `main`.
    pub open spec fn run_command(&self, main: Seq<char>) -> Seq<Seq<char>> {
        instantiate(self.run_args.deep_view(), main)
    }

    /// The argument vector that builds the program called `main`, or `None`
    /// for an interpreted language. It is to be run in the workspace.
    pub fn get_compile_command(&self, main: &str) -> (command: Option<Vec<String>>)
        ensures
            command.deep_view() == self.compile_command(main@),
    {
        match self.compile_args {
            Some(template) => Some(fill_all(template, main)),
            None => None,
        }
    }

    /// The argument vector that starts the program called `main`. It is to
    /// be run in the workspace.
    pub fn get_run_command(&self, main: &str) -> (command: Vec<String>)
        ensures
            command.deep_view() == self.run_command(main@),
    {
        fill_all(self.run_args, main)
    }

    /// Whether programs in this language run from source, with nothing to
    /// build.
    pub fn is_interpreted(&self) -> (interpreted: bool)
        ensures
            interpreted == self.interpreted(),
    {
        self.compile_args.is_none()
    }
}

} // verus!
