//! Finds the hook library that the launcher injects: the one that the
//! environment names, else the first that lies in one of the directories
//! the launcher looks in.

use vstd::prelude::*;
use crate::environment::Environment;
use crate::launcher::architecture::ProcessorArchitecture;
use crate::paths::{join, path_join};
use crate::platform::Platform;
use crate::table::resolve;
use crate::text::{str_equal, views_of};

verus! {

/// Why no hook library was found.
#[derive(Debug)]
pub enum LibraryError {
    /// The environment names a library in `variable`, and it is no file.
    NotAFile { variable: String },
    /// No variable names a library and none lies where the launcher looks.
    NotFound,
}

impl LibraryError {
    /// The cause in words.
    pub open spec fn spec_message(&self) -> Seq<char> {
        match self {
            LibraryError::NotAFile { variable } => variable@ + " has to be a valid file"@,
            LibraryError::NotFound =>
                "Couldn't find the doorstop library, specify one with DOORSTOP_PATH environment variable"@,
        }
    }

    /// The cause in words.
    pub fn message(&self) -> (text: String)
        ensures
            text@ == self.spec_message(),
    {
        match self {
            LibraryError::NotAFile { variable } => {
                let mut text = variable.clone();
                text.append(" has to be a valid file");
                text
            },
            LibraryError::NotFound => String::from_str(
                "Couldn't find the doorstop library, specify one with DOORSTOP_PATH environment variable",
            ),
        }
    }
}

/// The variables that may name the library, the one for the architecture
/// before the general one.
pub open spec fn variable_names(architecture: Option<ProcessorArchitecture>) -> Seq<Seq<char>> {
    match architecture {
        Some(architecture) => seq![
            "DOORSTOP_"@ + architecture.spec_name() + "_PATH"@,
            "DOORSTOP_PATH"@,
        ],
        None => seq!["DOORSTOP_PATH"@],
    }
}

/// The file names the library may have, the one for the architecture before
/// the general one.
pub open spec fn library_names(architecture: Option<ProcessorArchitecture>, platform: Platform) -> Seq<
    Seq<char>,
> {
    let general = platform.spec_library_prefix() + "doorstop"@ + platform.spec_library_suffix();
    match architecture {
        Some(architecture) => seq![
            platform.spec_library_prefix() + "doorstop-"@ + architecture.spec_lower_name()
                + platform.spec_library_suffix(),
            general,
        ],
        None => seq![general],
    }
}

/// Each of `names` in `directory`, in the order of `names`.
pub open spec fn in_directory(directory: Seq<char>, names: Seq<Seq<char>>) -> Seq<Seq<char>> {
    Seq::new(names.len(), |i: int| path_join(directory, names[i]))
}

/// Each of `names` in each of `directories`: every name in the first
/// directory, then every name in the second, and so on.
pub open spec fn in_directories(directories: Seq<Seq<char>>, names: Seq<Seq<char>>) -> Seq<
    Seq<char>,
>
    decreases directories.len(),
{
    if directories.len() == 0 {
        Seq::empty()
    } else {
        in_directory(directories[0], names) + in_directories(directories.drop_first(), names)
    }
}

/// The first of `variables` that the environment sets, with its value.
pub open spec fn configured(environment: Seq<(Seq<char>, Seq<char>)>, variables: Seq<Seq<char>>) -> Option<
    (Seq<char>, Seq<char>),
>
    decreases variables.len(),
{
    if variables.len() == 0 {
        None
    } else {
        match resolve(environment, variables[0]) {
            Some(value) => Some((variables[0], value)),
            None => configured(environment, variables.drop_first()),
        }
    }
}

/// The first of `candidates` that is among `files`.
pub open spec fn first_file(candidates: Seq<Seq<char>>, files: Seq<Seq<char>>) -> Option<
    Seq<char>,
>
    decreases candidates.len(),
{
    if candidates.len() == 0 {
        None
    } else if files.contains(candidates[0]) {
        Some(candidates[0])
    } else {
        first_file(candidates.drop_first(), files)
    }
}

/// The variables that may name the library.
pub fn path_variables(architecture: Option<ProcessorArchitecture>) -> (variables: Vec<String>)
    ensures
        views_of(variables@) == variable_names(architecture),
{
    let mut variables: Vec<String> = Vec::new();
    if let Some(architecture) = architecture {
        let mut name = String::from_str("DOORSTOP_");
        name.append(architecture.name());
        name.append("_PATH");
        variables.push(name);
    }
    variables.push(String::from_str("DOORSTOP_PATH"));
    assert(views_of(variables@) =~= variable_names(architecture));
    variables
}

/// The file names the library may have.
pub fn library_file_names(architecture: Option<ProcessorArchitecture>, platform: Platform) -> (names:
    Vec<String>)
    ensures
        views_of(names@) == library_names(architecture, platform),
{
    let mut names: Vec<String> = Vec::new();
    if let Some(architecture) = architecture {
        let mut name = String::from_str(platform.library_prefix());
        name.append("doorstop-");
        name.append(architecture.lower_name());
        name.append(platform.library_suffix());
        names.push(name);
    }
    let mut general = String::from_str(platform.library_prefix());
    general.append("doorstop");
    general.append(platform.library_suffix());
    names.push(general);
    assert(views_of(names@) =~= library_names(architecture, platform));
    names
}

/// The places in which the library is looked for, in the order of looking.
pub fn library_candidates(
    directories: &Vec<String>,
    architecture: Option<ProcessorArchitecture>,
    platform: Platform,
) -> (candidates: Vec<String>)
    ensures
        views_of(candidates@) == in_directories(
            views_of(directories@),
            library_names(architecture, platform),
        ),
{
    let names = library_file_names(architecture, platform);
    let ghost all = views_of(directories@);
    let ghost wanted = library_names(architecture, platform);
    let mut candidates: Vec<String> = Vec::new();
    let mut d: usize = 0;
    assert(all.subrange(0, all.len() as int) == all);
    assert(views_of(candidates@) + in_directories(all, wanted) == in_directories(all, wanted));
    while d < directories.len()
        invariant
            all == views_of(directories@),
            wanted == views_of(names@),
            d <= directories@.len(),
            views_of(candidates@) + in_directories(all.subrange(d as int, all.len() as int), wanted)
                == in_directories(all, wanted),
        decreases directories.len() - d,
    {
        let ghost before = views_of(candidates@);
        let ghost rest = all.subrange(d as int, all.len() as int);
        let mut n: usize = 0;
        while n < names.len()
            invariant
                all == views_of(directories@),
                wanted == views_of(names@),
                d < directories@.len(),
                n <= names@.len(),
                views_of(candidates@) == before + in_directory(all[d as int], wanted).subrange(
                    0,
                    n as int,
                ),
            decreases names.len() - n,
        {
            assert(all[d as int] == directories@[d as int]@);
            assert(wanted[n as int] == names@[n as int]@);
            let path = join(directories[d].as_str(), names[n].as_str());
            proof {
                assert(views_of(candidates@.push(path)) =~= views_of(candidates@) + seq![path@]);
                assert(in_directory(all[d as int], wanted).subrange(0, n + 1) =~= in_directory(
                    all[d as int],
                    wanted,
                ).subrange(0, n as int) + seq![path@]);
            }
            candidates.push(path);
            n = n + 1;
        }
        proof {
            let here = in_directory(all[d as int], wanted);
            assert(here.subrange(0, here.len() as int) == here);
            assert(rest[0] == all[d as int]);
            assert(rest.drop_first() == all.subrange(d + 1, all.len() as int));
            assert((before + here) + in_directories(rest.drop_first(), wanted) == before + (here
                + in_directories(rest.drop_first(), wanted)));
        }
        d = d + 1;
    }
    proof {
        assert(views_of(candidates@) + Seq::<Seq<char>>::empty() == views_of(candidates@));
    }
    candidates
}

/// Whether `path` is among `files`.
pub fn is_listed(files: &Vec<String>, path: &str) -> (listed: bool)
    ensures
        listed == views_of(files@).contains(path@),
{
    let mut i: usize = 0;
    while i < files.len()
        invariant
            i <= files@.len(),
            forall|k: int| 0 <= k < i ==> views_of(files@)[k] != path@,
        decreases files.len() - i,
    {
        assert(views_of(files@)[i as int] == files@[i as int]@);
        if str_equal(files[i].as_str(), path) {
            return true;
        }
        i = i + 1;
    }
    false
}

/// The library that the launcher injects, or why there is none.
pub open spec fn chosen_library(
    environment: Seq<(Seq<char>, Seq<char>)>,
    architecture: Option<ProcessorArchitecture>,
    directories: Seq<Seq<char>>,
    files: Seq<Seq<char>>,
    platform: Platform,
) -> Result<Seq<char>, Option<Seq<char>>> {
    match configured(environment, variable_names(architecture)) {
        Some((variable, value)) => if files.contains(value) {
            Ok(value)
        } else {
            Err(Some(variable))
        },
        None => match first_file(
            in_directories(directories, library_names(architecture, platform)),
            files,
        ) {
            Some(path) => Ok(path),
            None => Err(None),
        },
    }
}

/// Finds the library to inject.
///
/// The first variable that is set decides: its value is the library, and
/// must be a file. With no variable set, the library is the first candidate
/// that is a file. `directories` are the directories looked in, in order,
/// and `files` the paths at which there is a file.
pub fn get_doorstop_path(
    environment: &Environment,
    architecture: Option<ProcessorArchitecture>,
    directories: &Vec<String>,
    files: &Vec<String>,
    platform: Platform,
) -> (result: Result<String, LibraryError>)
    ensures
        match result {
            Ok(path) => chosen_library(
                environment@,
                architecture,
                views_of(directories@),
                views_of(files@),
                platform,
            ) == Ok::<Seq<char>, Option<Seq<char>>>(path@),
            Err(LibraryError::NotAFile { variable }) => chosen_library(
                environment@,
                architecture,
                views_of(directories@),
                views_of(files@),
                platform,
            ) == Err::<Seq<char>, Option<Seq<char>>>(Some(variable@)),
            Err(LibraryError::NotFound) => chosen_library(
                environment@,
                architecture,
                views_of(directories@),
                views_of(files@),
                platform,
            ) == Err::<Seq<char>, Option<Seq<char>>>(None),
        },
{
    let variables = path_variables(architecture);
    let ghost names = views_of(variables@);
    let mut v: usize = 0;
    assert(names.subrange(0, names.len() as int) == names);
    while v < variables.len()
        invariant
            names == views_of(variables@),
            names == variable_names(architecture),
            v <= variables@.len(),
            configured(environment@, names.subrange(v as int, names.len() as int)) == configured(
                environment@,
                names,
            ),
        decreases variables.len() - v,
    {
        proof {
            let rest = names.subrange(v as int, names.len() as int);
            assert(rest[0] == variables@[v as int]@);
            assert(rest.drop_first() == names.subrange(v + 1, names.len() as int));
        }
        if let Some(value) = environment.get(variables[v].as_str()) {
            if is_listed(files, value) {
                return Ok(String::from_str(value));
            } else {
                return Err(LibraryError::NotAFile { variable: variables[v].clone() });
            }
        }
        v = v + 1;
    }
    let candidates = library_candidates(directories, architecture, platform);
    let ghost places = views_of(candidates@);
    let mut c: usize = 0;
    assert(places.subrange(0, places.len() as int) == places);
    while c < candidates.len()
        invariant
            places == views_of(candidates@),
            places == in_directories(
                views_of(directories@),
                library_names(architecture, platform),
            ),
            configured(environment@, variable_names(architecture)) is None,
            c <= candidates@.len(),
            first_file(places.subrange(c as int, places.len() as int), views_of(files@))
                == first_file(places, views_of(files@)),
        decreases candidates.len() - c,
    {
        proof {
            let rest = places.subrange(c as int, places.len() as int);
            assert(rest[0] == candidates@[c as int]@);
            assert(rest.drop_first() == places.subrange(c + 1, places.len() as int));
        }
        if is_listed(files, candidates[c].as_str()) {
            return Ok(candidates[c].clone());
        }
        c = c + 1;
    }
    Err(LibraryError::NotFound)
}

} // verus!
