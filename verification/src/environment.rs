//! The `PATH` handed to a script: the project's executable directories in
//! front of what the runner itself inherited.

use vstd::prelude::*;
use crate::text::texts;

verus! {

/// The family of the host system. It decides how a search path is separated
/// and which shell interprets a command.
#[derive(Clone, Copy, Debug, PartialEq, Eq, Structural)]
pub enum Platform {
    Posix,
    Windows,
}

impl Platform {
    /// The character between two entries of a search path.
    pub open spec fn separator(self) -> char {
        match self {
            Platform::Posix => ':',
            Platform::Windows => ';',
        }
    }

    /// The separator as a string of one character.
    pub fn separator_str(&self) -> (sep: &'static str)
        ensures
            sep@ == seq![self.separator()],
    {
        proof {
            reveal_strlit(":");
            reveal_strlit(";");
        }
        match self {
            Platform::Posix => {
                assert(":"@ =~= seq![':']);
                ":"
            },
            Platform::Windows => {
                assert(";"@ =~= seq![';']);
                ";"
            },
        }
    }
}

/// The entries of a search path: the pieces of `text` between separators. An
/// empty text is one empty entry.
pub open spec fn split_on(text: Seq<char>, sep: char) -> Seq<Seq<char>>
    decreases text.len(),
{
    if text.len() == 0 {
        seq![Seq::empty()]
    } else {
        let rest = split_on(text.drop_first(), sep);
        if text[0] == sep {
            seq![Seq::empty()] + rest
        } else {
            seq![seq![text[0]] + rest[0]] + rest.drop_first()
        }
    }
}

/// The search path made of `entries`, with one separator between neighbours.
pub open spec fn join_with(entries: Seq<Seq<char>>, sep: char) -> Seq<char>
    decreases entries.len(),
{
    if entries.len() == 0 {
        Seq::empty()
    } else if entries.len() == 1 {
        entries[0]
    } else {
        entries[0] + seq![sep] + join_with(entries.drop_first(), sep)
    }
}

/// The search path for a script: every entry of `bin_dirs`, in order, ahead of
/// the entries of the inherited path.
pub open spec fn compose_path(bin_dirs: Seq<Seq<char>>, inherited: Seq<char>, sep: char) -> Seq<char> {
    join_with(bin_dirs + split_on(inherited, sep), sep)
}

/// `tail` with each of `dirs` and a separator put in front of it, the first of
/// `dirs` foremost.
pub open spec fn prefixed(dirs: Seq<Seq<char>>, sep: char, tail: Seq<char>) -> Seq<char>
    decreases dirs.len(),
{
    if dirs.len() == 0 {
        tail
    } else {
        dirs[0] + seq![sep] + prefixed(dirs.drop_first(), sep, tail)
    }
}

/// A text always splits into at least one entry.
pub proof fn lemma_split_not_empty(text: Seq<char>, sep: char)
    ensures
        split_on(text, sep).len() >= 1,
    decreases text.len(),
{
    if text.len() > 0 {
        lemma_split_not_empty(text.drop_first(), sep);
    }
}

/// Splitting a search path and joining the entries again gives the path back.
pub proof fn lemma_join_split(text: Seq<char>, sep: char)
    ensures
        join_with(split_on(text, sep), sep) == text,
    decreases text.len(),
{
    if text.len() == 0 {
        assert(join_with(split_on(text, sep), sep) =~= text);
    } else {
        let tail = text.drop_first();
        let rest = split_on(tail, sep);
        lemma_split_not_empty(tail, sep);
        lemma_join_split(tail, sep);
        let entries = split_on(text, sep);
        if text[0] == sep {
            assert(entries.drop_first() =~= rest);
            assert(join_with(entries, sep) =~= seq![sep] + tail);
        } else if rest.len() == 1 {
            assert(entries.len() == 1);
            assert(join_with(entries, sep) =~= seq![text[0]] + tail);
        } else {
            assert(entries.drop_first() =~= rest.drop_first());
            assert(join_with(entries, sep) =~= seq![text[0]] + (rest[0] + seq![sep] + join_with(
                rest.drop_first(),
                sep,
            )));
        }
        assert(seq![text[0]] + tail =~= text);
    }
}

/// Joining directories in front of further entries puts each directory and a
/// separator in front of the joined rest.
pub proof fn lemma_join_prefixed(dirs: Seq<Seq<char>>, entries: Seq<Seq<char>>, sep: char)
    requires
        entries.len() >= 1,
    ensures
        join_with(dirs + entries, sep) == prefixed(dirs, sep, join_with(entries, sep)),
    decreases dirs.len(),
{
    if dirs.len() == 0 {
        assert(dirs + entries =~= entries);
    } else {
        lemma_join_prefixed(dirs.drop_first(), entries, sep);
        assert((dirs + entries).drop_first() =~= dirs.drop_first() + entries);
    }
}

/// A piece without a separator, followed by a separator, is the first entry of
/// what it stands in front of.
pub proof fn lemma_split_first_entry(first: Seq<char>, rest: Seq<char>, sep: char)
    requires
        !first.contains(sep),
    ensures
        split_on(first + seq![sep] + rest, sep) == seq![first] + split_on(rest, sep),
    decreases first.len(),
{
    let text = first + seq![sep] + rest;
    if first.len() == 0 {
        assert(text.drop_first() =~= rest);
        assert(first =~= Seq::<char>::empty());
    } else {
        let shorter = first.drop_first();
        assert(first[0] != sep) by {
            if first[0] == sep {
                assert(first.contains(sep));
            }
        }
        assert(!shorter.contains(sep)) by {
            if shorter.contains(sep) {
                let i = choose|i: int| 0 <= i < shorter.len() && shorter[i] == sep;
                assert(first[i + 1] == sep);
            }
        }
        lemma_split_first_entry(shorter, rest, sep);
        assert(text.drop_first() =~= shorter + seq![sep] + rest);
        let below = split_on(text.drop_first(), sep);
        assert(seq![text[0]] + below[0] =~= first);
        assert(below.drop_first() =~= split_on(rest, sep));
    }
}

/// The entries of a prefixed path are the directories and then the entries of
/// the tail, provided no directory holds a separator itself.
pub proof fn lemma_split_prefixed(dirs: Seq<Seq<char>>, sep: char, tail: Seq<char>)
    requires
        forall|i: int| 0 <= i < dirs.len() ==> !(#[trigger] dirs[i]).contains(sep),
    ensures
        split_on(prefixed(dirs, sep, tail), sep) == dirs + split_on(tail, sep),
    decreases dirs.len(),
{
    if dirs.len() == 0 {
        assert(dirs + split_on(tail, sep) =~= split_on(tail, sep));
    } else {
        let below = prefixed(dirs.drop_first(), sep, tail);
        assert forall|i: int| 0 <= i < dirs.drop_first().len() implies !(
        #[trigger] dirs.drop_first()[i]).contains(sep) by {
            assert(dirs.drop_first()[i] == dirs[i + 1]);
        }
        lemma_split_prefixed(dirs.drop_first(), sep, tail);
        lemma_split_first_entry(dirs[0], below, sep);
        assert(seq![dirs[0]] + (dirs.drop_first() + split_on(tail, sep)) =~= dirs + split_on(
            tail,
            sep,
        ));
    }
}

/// Without directories to add, the composed path is the inherited path, unchanged.
pub proof fn lemma_compose_nothing(inherited: Seq<char>, sep: char)
    ensures
        compose_path(Seq::empty(), inherited, sep) == inherited,
{
    lemma_join_split(inherited, sep);
    assert(Seq::<Seq<char>>::empty() + split_on(inherited, sep) =~= split_on(inherited, sep));
}

/// The composed path is each directory with a separator, nearest first, and
/// then the inherited path as it was.
pub proof fn lemma_compose_prefixed(bin_dirs: Seq<Seq<char>>, inherited: Seq<char>, sep: char)
    ensures
        compose_path(bin_dirs, inherited, sep) == prefixed(bin_dirs, sep, inherited),
{
    lemma_split_not_empty(inherited, sep);
    lemma_join_prefixed(bin_dirs, split_on(inherited, sep), sep);
    lemma_join_split(inherited, sep);
}

/// The first entry of a composed path is the first directory, as long as that
/// directory holds no separator.
pub proof fn lemma_compose_first_entry(bin_dirs: Seq<Seq<char>>, inherited: Seq<char>, sep: char)
    requires
        bin_dirs.len() > 0,
        !bin_dirs[0].contains(sep),
    ensures
        split_on(compose_path(bin_dirs, inherited, sep), sep)[0] == bin_dirs[0],
{
    lemma_compose_prefixed(bin_dirs, inherited, sep);
    lemma_split_first_entry(bin_dirs[0], prefixed(bin_dirs.drop_first(), sep, inherited), sep);
}

/// Read entry by entry, a composed path is the directories in their order and
/// then the inherited entries, so that a nearer directory shadows a farther one
/// and all of them shadow the inherited path. This needs directories that hold
/// no separator.
pub proof fn lemma_compose_entries(bin_dirs: Seq<Seq<char>>, inherited: Seq<char>, sep: char)
    requires
        forall|i: int| 0 <= i < bin_dirs.len() ==> !(#[trigger] bin_dirs[i]).contains(sep),
    ensures
        split_on(compose_path(bin_dirs, inherited, sep), sep) == bin_dirs + split_on(
            inherited,
            sep,
        ),
{
    lemma_compose_prefixed(bin_dirs, inherited, sep);
    lemma_split_prefixed(bin_dirs, sep, inherited);
}

/// Builds the `PATH` for a script from the executable directories and the
/// inherited `PATH`.
pub fn get_path_env(bin_dirs: &Vec<String>, inherited: &str, platform: Platform) -> (path: String)
    ensures
        path@ == compose_path(texts(bin_dirs@), inherited@, platform.separator()),
{
    let ghost dirs = texts(bin_dirs@);
    let ghost sep = platform.separator();
    let mut path = String::new();
    let mut i: usize = 0;
    proof {
        assert(dirs.skip(0) =~= dirs);
        assert(path@ + prefixed(dirs, sep, inherited@) =~= prefixed(dirs, sep, inherited@));
    }
    while i < bin_dirs.len()
        invariant
            i <= bin_dirs.len(),
            dirs == texts(bin_dirs@),
            sep == platform.separator(),
            path@ + prefixed(dirs.skip(i as int), sep, inherited@) == prefixed(dirs, sep, inherited@),
        decreases bin_dirs.len() - i,
    {
        let ghost before = path@;
        path.append(bin_dirs[i].as_str());
        path.append(platform.separator_str());
        proof {
            assert(dirs.skip(i as int).drop_first() =~= dirs.skip(i + 1));
            assert(path@ + prefixed(dirs.skip(i + 1), sep, inherited@) =~= before + prefixed(
                dirs.skip(i as int),
                sep,
                inherited@,
            ));
        }
        i += 1;
    }
    path.append(inherited);
    proof {
        lemma_compose_prefixed(dirs, inherited@, sep);
    }
    path
}

} // verus!
