//! A game version's manifest: its libraries, argument templates and main
//! class, as plain typed values.
use vstd::prelude::*;

verus! {

/// A downloadable file of a library.
#[derive(Debug, Default, Clone, PartialEq, Eq)]
pub struct Artifact {
    pub path: String,
    pub url: String,
    pub sha1: String,
    pub size: i32,
}

/// The downloads of a library.
#[derive(Debug, Default, Clone, PartialEq, Eq)]
pub struct Downloads {
    pub artifact: Artifact,
}

/// A library on the class path. `rules` keeps the manifest's rule list as
/// JSON text, when there is one.
#[derive(Debug, Default, Clone, PartialEq, Eq)]
pub struct Library {
    pub name: String,
    pub downloads: Downloads,
    pub rules: Option<String>,
}

/// The manifest's logging section.
#[derive(Debug, Default, Clone, PartialEq, Eq)]
pub struct Logging {}

/// One entry of an argument list: plain text, or a conditional entry (an
/// object with rules) that is not passed on.
#[derive(Debug, Clone, PartialEq, Eq)]
pub enum Argument {
    Plain(String),
    Conditional,
}

/// The argument lists; `None` where the manifest's value is not a list.
#[derive(Debug, Default, Clone, PartialEq, Eq)]
pub struct Arguments {
    pub game: Option<Vec<Argument>>,
    pub jvm: Option<Vec<Argument>>,
}

/// The asset index of a version.
#[derive(Debug, Default, Clone, PartialEq, Eq)]
pub struct AssetIndex {
    pub id: String,
    pub sha1: String,
    pub size: i32,
    pub total_size: i32,
    pub url: String,
}

/// A version manifest.
#[derive(Debug, Default, Clone, PartialEq, Eq)]
pub struct MinecraftJson {
    pub comment: Option<Vec<String>>,
    pub id: String,
    pub time: String,
    pub release_time: String,
    pub kind: String,
    pub main_class: String,
    pub minimum_launcher_version: Option<i32>,
    pub inherits_from: Option<String>,
    pub logging: Option<Logging>,
    pub arguments: Arguments,
    pub asset_index: Option<AssetIndex>,
    pub assets: Option<String>,
    pub compliance_level: Option<i32>,
    pub libraries: Vec<Library>,
}

/// The class-path entries of `libs` under the directory prefix `dir`: for
/// each library, `dir`, its artifact path, and `;`.
pub open spec fn classpath(dir: Seq<char>, libs: Seq<Library>) -> Seq<char>
    decreases libs.len(),
{
    if libs.len() == 0 {
        Seq::empty()
    } else {
        classpath(dir, libs.drop_last()) + dir + libs.last().downloads.artifact.path@ + seq![';']
    }
}

/// Whether every entry of a list is plain text.
pub open spec fn all_plain(args: Seq<Argument>) -> bool {
    forall|i: int| 0 <= i < args.len() ==> #[trigger] args[i] is Plain
}

/// The texts of a list of plain entries.
pub open spec fn plain_texts(args: Seq<Argument>) -> Seq<Seq<char>> {
    args.map_values(|a: Argument| match a {
        Argument::Plain(t) => t@,
        Argument::Conditional => Seq::empty(),
    })
}

/// The texts of a list of strings.
pub open spec fn string_views(v: Seq<String>) -> Seq<Seq<char>> {
    v.map_values(|s: String| s@)
}

/// The texts of an argument list, when it is a list of plain entries.
pub open spec fn argument_texts(args: Option<Vec<Argument>>) -> Option<Seq<Seq<char>>> {
    match args {
        Some(v) => if all_plain(v@) {
            Some(plain_texts(v@))
        } else {
            None
        },
        None => None,
    }
}

/// The texts of an argument list; `None` unless it is a list whose entries
/// are all plain.
pub fn plain_arguments(args: &Option<Vec<Argument>>) -> (r: Option<Vec<String>>)
    ensures
        r is Some <==> argument_texts(*args) is Some,
        r is Some ==> string_views(r.unwrap()@) == argument_texts(*args).unwrap(),
{
    match args {
        None => None,
        Some(v) => {
            let mut out: Vec<String> = Vec::new();
            let mut i: usize = 0;
            while i < v.len()
                invariant
                    *args == Some(*v),
                    i <= v@.len(),
                    out@.len() == i,
                    all_plain(v@.take(i as int)),
                    string_views(out@) == plain_texts(v@.take(i as int)),
                decreases v@.len() - i,
            {
                let ghost before = out@;
                match &v[i] {
                    Argument::Plain(t) => {
                        let c = t.clone();
                        assert(c@ == t@);
                        out.push(c);
                        proof {
                            let next = v@.take(i as int + 1);
                            assert(next =~= v@.take(i as int).push(v@[i as int]));
                            assert(v@[i as int] == Argument::Plain(*t));
                            assert(all_plain(next)) by {
                                assert forall|j: int| 0 <= j < next.len() implies #[trigger] next[j] is Plain by {
                                    if j < i {
                                        assert(next[j] == v@.take(i as int)[j]);
                                    }
                                }
                            }
                            assert forall|j: int| 0 <= j < out@.len() implies string_views(out@)[j]
                                == plain_texts(next)[j] by {
                                if j < i {
                                    assert(out@[j] == before[j]);
                                    assert(next[j] == v@.take(i as int)[j]);
                                    assert(string_views(before)[j] == plain_texts(v@.take(i as int))[j]);
                                }
                            }
                            assert(string_views(out@) =~= plain_texts(next));
                        }
                    },
                    Argument::Conditional => {
                        assert(v@[i as int] is Conditional);
                        assert(!all_plain(v@));
                        assert(argument_texts(*args) is None);
                        return None;
                    },
                }
                i = i + 1;
            }
            assert(v@.take(i as int) =~= v@);
            Some(out)
        },
    }
}

impl MinecraftJson {
    /// The class-path entries of this manifest's libraries under `path`.
    pub fn libs_to_args(&self, path: &str) -> (r: String)
        ensures
            r@ == classpath(path@, self.libraries@),
    {
        let mut out = String::new();
        let mut i: usize = 0;
        while i < self.libraries.len()
            invariant
                i <= self.libraries@.len(),
                out@ == classpath(path@, self.libraries@.take(i as int)),
            decreases self.libraries@.len() - i,
        {
            proof {
                reveal_strlit(";");
                let next = self.libraries@.take(i as int + 1);
                assert(next.drop_last() =~= self.libraries@.take(i as int));
            }
            out.append(path);
            out.append(self.libraries[i].downloads.artifact.path.as_str());
            out.append(";");
            i = i + 1;
        }
        assert(self.libraries@.take(i as int) =~= self.libraries@);
        out
    }

    /// The JVM argument texts; `None` unless the list is all plain text.
    pub fn jvm_args_to_arg(&self) -> (r: Option<Vec<String>>)
        ensures
            r is Some <==> argument_texts(self.arguments.jvm) is Some,
            r is Some ==> string_views(r.unwrap()@) == argument_texts(self.arguments.jvm).unwrap(),
    {
        plain_arguments(&self.arguments.jvm)
    }

    /// The game argument texts; `None` unless the list is all plain text.
    pub fn game_args_to_arg(&self) -> (r: Option<Vec<String>>)
        ensures
            r is Some <==> argument_texts(self.arguments.game) is Some,
            r is Some ==> string_views(r.unwrap()@) == argument_texts(self.arguments.game).unwrap(),
    {
        plain_arguments(&self.arguments.game)
    }
}

} // verus!
