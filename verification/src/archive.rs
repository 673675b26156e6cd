//! What to import, and in what order: the archives of a directory and the
//! members of an archive.

use crate::cli::Cli;
use crate::config::{invalid_file_type, part_of_filename, Config};
use crate::text::chars_of;
use crate::tipo_de_arquivo::TipoDeArquivo;
use vstd::multiset::Multiset;
use vstd::prelude::*;

verus! {

broadcast use vstd::seq_lib::group_to_multiset_ensures;

/// `a` comes no later than `b` in the order of the dictionary, character by
/// character.
pub open spec fn lex_le(a: Seq<char>, b: Seq<char>) -> bool
    decreases a.len(),
{
    if a.len() == 0 {
        true
    } else if b.len() == 0 {
        false
    } else if a[0] != b[0] {
        a[0] < b[0]
    } else {
        lex_le(a.drop_first(), b.drop_first())
    }
}

/// Of two names, one comes no later than the other.
pub proof fn lemma_lex_le_total(a: Seq<char>, b: Seq<char>)
    ensures
        lex_le(a, b) || lex_le(b, a),
    decreases a.len(),
{
    if a.len() > 0 && b.len() > 0 && a[0] == b[0] {
        lemma_lex_le_total(a.drop_first(), b.drop_first());
    }
}

/// The order passes on: what is no later than something no later than a
/// third is no later than the third.
pub proof fn lemma_lex_le_transitive(a: Seq<char>, b: Seq<char>, c: Seq<char>)
    requires
        lex_le(a, b),
        lex_le(b, c),
    ensures
        lex_le(a, c),
    decreases a.len(),
{
    if a.len() > 0 && b.len() > 0 && c.len() > 0 {
        if a[0] == b[0] && b[0] == c[0] {
            lemma_lex_le_transitive(a.drop_first(), b.drop_first(), c.drop_first());
        }
    }
}

/// Two names that are each no later than the other are the same name.
pub proof fn lemma_lex_le_antisymmetric(a: Seq<char>, b: Seq<char>)
    requires
        lex_le(a, b),
        lex_le(b, a),
    ensures
        a == b,
    decreases a.len(),
{
    if a.len() > 0 && b.len() > 0 {
        lemma_lex_le_antisymmetric(a.drop_first(), b.drop_first());
        assert(b =~= seq![b[0]] + b.drop_first());
    } else {
    }
}

/// Whether `a` comes no later than `b` in the order of the dictionary.
pub fn precedes(a: &Vec<char>, b: &Vec<char>) -> (r: bool)
    ensures
        r == lex_le(a@, b@),
{
    let mut i: usize = 0;
    assert(a@.skip(0) =~= a@ && b@.skip(0) =~= b@);
    while i < a.len() && i < b.len()
        invariant
            i <= a.len(),
            i <= b.len(),
            lex_le(a@, b@) == lex_le(a@.skip(i as int), b@.skip(i as int)),
        decreases a.len() - i,
    {
        proof {
            assert(a@.skip(i as int).drop_first() =~= a@.skip(i + 1));
            assert(b@.skip(i as int).drop_first() =~= b@.skip(i + 1));
        }
        if a[i] != b[i] {
            return a[i] < b[i];
        }
        i += 1;
    }
    i == a.len()
}

/// The names come in the order of the dictionary.
pub open spec fn is_sorted(names: Seq<Seq<char>>) -> bool {
    forall|i: int, j: int| 0 <= i < j < names.len() ==> lex_le(names[i], names[j])
}

/// The name of an archive: a file name with the extension `zip`.
pub open spec fn is_archive_name(name: Seq<char>) -> bool {
    name.len() > 4 && name.subrange(name.len() - 4, name.len() as int) == seq!['.', 'z', 'i', 'p']
}

/// Whether a file name has the extension `zip`.
pub fn has_zip_extension(name: &Vec<char>) -> (r: bool)
    ensures
        r == is_archive_name(name@),
{
    let n: usize = name.len();
    if n <= 4 {
        return false;
    }
    let r: bool = name[n - 4] == '.' && name[n - 3] == 'z' && name[n - 2] == 'i' && name[n - 1]
        == 'p';
    proof {
        let tail = name@.subrange(n - 4, n as int);
        let zip = seq!['.', 'z', 'i', 'p'];
        if r {
            assert(tail =~= zip);
        } else {
            assert(tail[0] == name@[n - 4] && tail[1] == name@[n - 3] && tail[2] == name@[n - 2]
                && tail[3] == name@[n - 1]);
        }
    }
    r
}

/// The archives among the given names, each as often as it is named.
pub open spec fn archives_among(names: Seq<Seq<char>>) -> Multiset<Seq<char>>
    decreases names.len(),
{
    if names.len() == 0 {
        Multiset::empty()
    } else if is_archive_name(names.last()) {
        archives_among(names.drop_last()).insert(names.last())
    } else {
        archives_among(names.drop_last())
    }
}

/// The texts of a list of strings.
pub open spec fn names_view(names: Seq<String>) -> Seq<Seq<char>> {
    Seq::new(names.len(), |i: int| names[i]@)
}

/// A sequence with one more element holds what it held, and that element.
proof fn lemma_insert_to_multiset(s: Seq<Seq<char>>, at: int, name: Seq<char>)
    requires
        0 <= at <= s.len(),
    ensures
        s.insert(at, name).to_multiset() == s.to_multiset().insert(name),
{
    let t = s.insert(at, name);
    vstd::seq_lib::to_multiset_remove(t, at);
}

/// The archives of a directory in the order in which they are imported: the
/// names with the extension `zip`, in the order of the dictionary, so that
/// the parts of a table come in the order of their numbers.
pub fn archives_in_order(names: &Vec<String>) -> (ordered: Vec<String>)
    ensures
        is_sorted(names_view(ordered@)),
        names_view(ordered@).to_multiset() == archives_among(names_view(names@)),
{
    let mut ordered: Vec<String> = Vec::new();
    let mut i: usize = 0;
    while i < names.len()
        invariant
            i <= names.len(),
            is_sorted(names_view(ordered@)),
            names_view(ordered@).to_multiset() == archives_among(
                names_view(names@).take(i as int),
            ),
        decreases names.len() - i,
    {
        let name = chars_of(names[i].as_str());
        proof {
            let seen = names_view(names@).take(i + 1);
            assert(seen.drop_last() =~= names_view(names@).take(i as int));
        }
        if has_zip_extension(&name) {
            let ghost before = names_view(ordered@);
            let mut at: usize = ordered.len();
            while at > 0
                invariant
                    at <= ordered.len(),
                    before == names_view(ordered@),
                    forall|j: int| at <= j < ordered.len() ==> lex_le(name@, #[trigger] before[j]),
                ensures
                    at > 0 ==> lex_le(before[at - 1], name@),
                decreases at,
            {
                let other = chars_of(ordered[at - 1].as_str());
                if precedes(&other, &name) {
                    break;
                }
                proof {
                    lemma_lex_le_total(before[at - 1], name@);
                }
                at -= 1;
            }
            ordered.insert(at, names[i].clone());
            proof {
                let after = names_view(ordered@);
                assert(after =~= before.insert(at as int, name@));
                lemma_insert_to_multiset(before, at as int, name@);
                assert forall|x: int, y: int| 0 <= x < y < after.len() implies lex_le(
                    after[x],
                    after[y],
                ) by {
                    if y == at {
                        if x < at - 1 {
                            lemma_lex_le_transitive(before[x], before[at - 1], name@);
                        }
                    } else if x == at {
                        assert(after[y] == before[y - 1]);
                    } else {
                        let was_x = if x < at {
                            x
                        } else {
                            x - 1
                        };
                        let was_y = if y < at {
                            y
                        } else {
                            y - 1
                        };
                        assert(after[x] == before[was_x] && after[y] == before[was_y]);
                    }
                }
            }
        }
        i += 1;
    }
    assert(names_view(names@).take(i as int) =~= names_view(names@));
    ordered
}

/// The name of a directory inside an archive: it ends in a slash.
pub open spec fn is_directory_name(name: Seq<char>) -> bool {
    name.len() > 0 && name.last() == '/'
}

/// What to do with one member of an archive.
pub enum Member<'a> {
    /// A directory: nothing to import.
    Directory,
    /// A file of the feed, to be imported as its kind says.
    File(Config<'a>),
}

/// Looks at one member of an archive. A directory is passed over; a file
/// must be of a known kind, or the run ends with the message.
pub fn member_of<'a>(name: &str, args: &'a Cli) -> (r: Result<Member<'a>, &'static str>)
    ensures
        is_directory_name(name@) ==> r matches Ok(Member::Directory),
        !is_directory_name(name@) ==> match r {
            Ok(Member::File(config)) => {
                &&& TipoDeArquivo::of_filename(name@) == Some(config.kind())
                &&& config.part() == part_of_filename(name@)
                &&& config.options() == *args
            },
            Ok(Member::Directory) => false,
            Err(message) => {
                &&& TipoDeArquivo::of_filename(name@) is None
                &&& message@ == invalid_file_type()
            },
        },
{
    let chars = chars_of(name);
    if chars.len() > 0 && chars[chars.len() - 1] == '/' {
        return Ok(Member::Directory);
    }
    match Config::new(name, args) {
        Ok(config) => Ok(Member::File(config)),
        Err(message) => Err(message),
    }
}

/// What the path of a run must be.
#[derive(Clone, Copy, Debug, PartialEq, Eq, Structural)]
pub enum Target {
    /// One archive.
    Archive,
    /// A directory of archives.
    Directory,
}

/// What the run imports: a directory of archives where the options say so,
/// else one archive.
pub fn target_of(args: &Cli) -> (target: Target)
    ensures
        target == (if args.folder {
            Target::Directory
        } else {
            Target::Archive
        }),
{
    if args.folder {
        Target::Directory
    } else {
        Target::Archive
    }
}

} // verus!
