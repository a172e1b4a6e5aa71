//! The external converter tools (KCC's command line and KindleGen): where
//! they are looked for, and what the user is told when one is missing.

use vstd::prelude::*;
use crate::paths::{join_path, path_join};
use crate::text::opt_view;

verus! {

/// Where the converter tools were found.
#[derive(Debug, Clone)]
pub struct ToolchainStatus {
    pub kcc_cli_path: Option<String>,
    pub kindlegen_path: Option<String>,
}

/// The folders searched for a tool after `PATH`.
pub open spec fn standard_dirs() -> Seq<Seq<char>> {
    seq!["/usr/local/bin"@, "/usr/bin"@, "/bin"@, "/opt/homebrew/bin"@, "/opt/kindlegen"@]
}

/// The folders under the home folder searched next.
pub open spec fn home_subdirs() -> Seq<Seq<char>> {
    seq![".local/bin"@, "bin"@, ".cargo/bin"@, ".kcc-venv/bin"@]
}

/// The files a tool called `name` is looked for in, in order, after `PATH`:
/// the standard folders, then the folders under the home folder.
pub open spec fn executable_paths(name: Seq<char>, home: Option<Seq<char>>) -> Seq<Seq<char>> {
    let std_paths = standard_dirs().map_values(|d: Seq<char>| join_path(d, name));
    match home {
        Some(h) => std_paths + home_subdirs().map_values(
            |d: Seq<char>| join_path(join_path(h, d), name),
        ),
        None => std_paths,
    }
}

/// The places of KindleGen inside Kindle Previewer on macOS.
pub open spec fn previewer_paths(home: Option<Seq<char>>) -> Seq<Seq<char>> {
    let fixed = seq![
        "/Applications/Kindle Previewer 3.app/Contents/lib/fc/bin/kindlegen"@,
        "/Applications/Kindle Previewer 3.app/Contents/MacOS/kindlegen"@,
    ];
    match home {
        Some(h) => fixed.push(
            join_path(h, "Applications/Kindle Previewer 3.app/Contents/lib/fc/bin/kindlegen"@),
        ),
        None => fixed,
    }
}

/// The files KindleGen is looked for in before the general search: the
/// configured file, the file `KINDLEGEN_PATH` names, and on macOS the files
/// inside Kindle Previewer.
pub open spec fn kindlegen_paths(
    custom: Option<Seq<char>>,
    env: Option<Seq<char>>,
    home: Option<Seq<char>>,
    macos: bool,
) -> Seq<Seq<char>> {
    let a = match custom {
        Some(c) => seq![c],
        None => Seq::empty(),
    };
    let b = match env {
        Some(e) => seq![e],
        None => Seq::empty(),
    };
    a + b + if macos {
        previewer_paths(home)
    } else {
        Seq::empty()
    }
}

/// The first candidate that was found to be a file.
pub open spec fn first_found(candidates: Seq<Seq<char>>, found: Seq<bool>) -> Option<Seq<char>>
    decreases candidates.len(),
{
    if candidates.len() == 0 || found.len() == 0 {
        None
    } else if found[0] {
        Some(candidates[0])
    } else {
        first_found(candidates.drop_first(), found.drop_first())
    }
}

/// The names of the missing tools, KCC first.
pub open spec fn missing_names(s: ToolchainStatus) -> Seq<Seq<char>> {
    let a = if s.kcc_cli_path is None {
        seq!["kcc-c2e (KCC CLI)"@]
    } else {
        Seq::empty()
    };
    let b = if s.kindlegen_path is None {
        seq!["kindlegen (KindleGen)"@]
    } else {
        Seq::empty()
    };
    a + b
}

/// How to install KCC's command line.
pub open spec fn kcc_help(macos: bool) -> Seq<char> {
    if macos {
        "• Kindle Comic Converter CLI (kcc-c2e):\n  Para conversão silenciosa em segundo plano no macOS:\n  brew install pipx && pipx install git+https://github.com/ciromattia/kcc.git"@
    } else {
        "• Kindle Comic Converter CLI (kcc-c2e):\n  Instale o KCC CLI via pipx:\n  pipx install git+https://github.com/ciromattia/kcc.git\n  (ou: pip install --user git+https://github.com/ciromattia/kcc.git)"@
    }
}

/// How to install KindleGen.
pub open spec fn kindlegen_help(macos: bool) -> Seq<char> {
    if macos {
        "• KindleGen (via Kindle Previewer 3):\n  No macOS, instale o Kindle Previewer que contém o kindlegen embutido:\n  brew install --cask kindle-previewer"@
    } else {
        "• KindleGen (Linux):\n  O kindlegen oficial foi descontinuado pela Amazon, mas ainda é utilizável no Linux:\n  - Arch Linux / Manjaro: yay -S kindlegen\n  - Debian / Ubuntu / Fedora: Baixe o kindlegen e coloque em ~/.local/bin/kindlegen (chmod +x)\n  - Ou configure o caminho no ~/.config/neo-mangal/config.toml:\n    kindlegen_path = \"/caminho/para/kindlegen\""@
    }
}

/// The installation help for the missing tools, separated by a blank line.
pub open spec fn install_help(s: ToolchainStatus, macos: bool) -> Seq<char> {
    if s.kcc_cli_path is None && s.kindlegen_path is None {
        kcc_help(macos) + "\n\n"@ + kindlegen_help(macos)
    } else if s.kcc_cli_path is None {
        kcc_help(macos)
    } else if s.kindlegen_path is None {
        kindlegen_help(macos)
    } else {
        Seq::empty()
    }
}

/// The views of a list of string slices.
pub open spec fn str_views(v: Seq<&'static str>) -> Seq<Seq<char>> {
    v.map_values(|s: &'static str| s@)
}

/// The view of an optional string slice.
pub open spec fn opt_str(o: Option<&str>) -> Option<Seq<char>> {
    match o {
        Some(s) => Some(s@),
        None => None,
    }
}

/// The views of a list of strings.
pub open spec fn string_views(v: Seq<String>) -> Seq<Seq<char>> {
    v.map_values(|s: String| s@)
}

/// `name` in the folder `d`, itself under `base` where there is one.
pub open spec fn joined_under(base: Option<Seq<char>>, d: Seq<char>, name: Seq<char>) -> Seq<char> {
    match base {
        Some(b) => join_path(join_path(b, d), name),
        None => join_path(d, name),
    }
}

fn append_joined(out: &mut Vec<String>, dirs: &Vec<&'static str>, base: Option<&str>, name: &str)
    ensures
        string_views(final(out)@) == string_views(old(out)@) + str_views(dirs@).map_values(
            |d: Seq<char>| joined_under(opt_str(base), d, name@),
        ),
{
    let ghost start = string_views(out@);
    let ghost bv = opt_str(base);

    let mut i: usize = 0;
    while i < dirs.len()
        invariant
            i <= dirs@.len(),
            bv == opt_str(base),
            string_views(out@) == start + str_views(dirs@).subrange(0, i as int).map_values(
                |d: Seq<char>| joined_under(bv, d, name@),
            ),
        decreases dirs@.len() - i,
    {
        let dir = match base {
            Some(b) => path_join(b, dirs[i]),
            None => String::from_str(dirs[i]),
        };
        let p = path_join(dir.as_str(), name);
        proof {
            assert(str_views(dirs@)[i as int] == dirs@[i as int]@);
            assert(p@ == joined_under(bv, dirs@[i as int]@, name@));
        }
        let ghost before = string_views(out@);
        out.push(p);
        proof {
            assert(string_views(out@) =~= before.push(p@));
            assert(str_views(dirs@).subrange(0, i + 1) =~= str_views(dirs@).subrange(0, i as int).push(
                dirs@[i as int]@,
            ));
            assert(string_views(out@) =~= start + str_views(dirs@).subrange(0, i + 1).map_values(
                |d: Seq<char>| joined_under(bv, d, name@),
            ));
        }
        i = i + 1;
    }
    assert(str_views(dirs@).subrange(0, dirs@.len() as int) =~= str_views(dirs@));
}

impl ToolchainStatus {
    /// Whether both tools were found.
    pub fn is_ready(&self) -> (r: bool)
        ensures
            r == (self.kcc_cli_path is Some && self.kindlegen_path is Some),
    {
        self.kcc_cli_path.is_some() && self.kindlegen_path.is_some()
    }

    /// The names of the missing tools, KCC first.
    pub fn missing_tools(&self) -> (r: Vec<&'static str>)
        ensures
            str_views(r@) == missing_names(*self),
    {
        let mut missing: Vec<&'static str> = Vec::new();
        if self.kcc_cli_path.is_none() {
            missing.push("kcc-c2e (KCC CLI)");
        }
        if self.kindlegen_path.is_none() {
            missing.push("kindlegen (KindleGen)");
        }
        assert(str_views(missing@) =~= missing_names(*self));
        missing
    }

    /// The installation help for the missing tools, for macOS or for other
    /// systems.
    pub fn install_instructions(&self, macos: bool) -> (r: String)
        ensures
            r@ == install_help(*self, macos),
    {
        let kcc = if macos {
            "• Kindle Comic Converter CLI (kcc-c2e):\n  Para conversão silenciosa em segundo plano no macOS:\n  brew install pipx && pipx install git+https://github.com/ciromattia/kcc.git"
        } else {
            "• Kindle Comic Converter CLI (kcc-c2e):\n  Instale o KCC CLI via pipx:\n  pipx install git+https://github.com/ciromattia/kcc.git\n  (ou: pip install --user git+https://github.com/ciromattia/kcc.git)"
        };
        let kg = if macos {
            "• KindleGen (via Kindle Previewer 3):\n  No macOS, instale o Kindle Previewer que contém o kindlegen embutido:\n  brew install --cask kindle-previewer"
        } else {
            "• KindleGen (Linux):\n  O kindlegen oficial foi descontinuado pela Amazon, mas ainda é utilizável no Linux:\n  - Arch Linux / Manjaro: yay -S kindlegen\n  - Debian / Ubuntu / Fedora: Baixe o kindlegen e coloque em ~/.local/bin/kindlegen (chmod +x)\n  - Ou configure o caminho no ~/.config/neo-mangal/config.toml:\n    kindlegen_path = \"/caminho/para/kindlegen\""
        };
        let mut out = String::new();
        if self.kcc_cli_path.is_none() {
            out.append(kcc);
        }
        if self.kindlegen_path.is_none() {
            if self.kcc_cli_path.is_none() {
                out.append("\n\n");
            }
            out.append(kg);
        }
        proof {
            if self.kcc_cli_path is Some && self.kindlegen_path is Some {
                assert(out@ =~= Seq::<char>::empty());
            }
            if self.kcc_cli_path is None && self.kindlegen_path is Some {
                assert(out@ =~= kcc_help(macos));
            }
            if self.kcc_cli_path is Some && self.kindlegen_path is None {
                assert(out@ =~= kindlegen_help(macos));
            }
        }
        out
    }

    /// The files a tool called `name` is looked for in after `PATH`.
    pub fn executable_candidates(name: &str, home: Option<&str>) -> (r: Vec<String>)
        ensures
            string_views(r@) == executable_paths(
                name@,
                match home {
                    Some(h) => Some(h@),
                    None => None,
                },
            ),
    {
        let std_dirs: Vec<&'static str> = vec![
            "/usr/local/bin",
            "/usr/bin",
            "/bin",
            "/opt/homebrew/bin",
            "/opt/kindlegen",
        ];
        let mut out: Vec<String> = Vec::new();
        append_joined(&mut out, &std_dirs, None, name);
        assert(str_views(std_dirs@) =~= standard_dirs());
        match home {
            Some(h) => {
                let sub: Vec<&'static str> = vec![".local/bin", "bin", ".cargo/bin", ".kcc-venv/bin"];
                append_joined(&mut out, &sub, Some(h), name);
                assert(str_views(sub@) =~= home_subdirs());
            },
            None => {},
        }
        assert(string_views(out@) =~= executable_paths(
            name@,
            match home {
                Some(h) => Some(h@),
                None => None,
            },
        ));
        out
    }

    /// The files KindleGen is looked for in before the general search.
    pub fn kindlegen_candidates(
        custom: Option<&str>,
        env: Option<&str>,
        home: Option<&str>,
        macos: bool,
    ) -> (r: Vec<String>)
        ensures
            string_views(r@) == kindlegen_paths(
                match custom {
                    Some(c) => Some(c@),
                    None => None,
                },
                match env {
                    Some(e) => Some(e@),
                    None => None,
                },
                match home {
                    Some(h) => Some(h@),
                    None => None,
                },
                macos,
            ),
    {
        let mut out: Vec<String> = Vec::new();
        match custom {
            Some(c) => out.push(String::from_str(c)),
            None => {},
        }
        match env {
            Some(e) => out.push(String::from_str(e)),
            None => {},
        }
        if macos {
            out.push(String::from_str("/Applications/Kindle Previewer 3.app/Contents/lib/fc/bin/kindlegen"));
            out.push(String::from_str("/Applications/Kindle Previewer 3.app/Contents/MacOS/kindlegen"));
            match home {
                Some(h) => out.push(
                    path_join(h, "Applications/Kindle Previewer 3.app/Contents/lib/fc/bin/kindlegen"),
                ),
                None => {},
            }
        }
        assert(string_views(out@) =~= kindlegen_paths(
            match custom {
                Some(c) => Some(c@),
                None => None,
            },
            match env {
                Some(e) => Some(e@),
                None => None,
            },
            match home {
                Some(h) => Some(h@),
                None => None,
            },
            macos,
        ));
        out
    }

    /// The first candidate that was found to be a file (`found[i]` tells
    /// whether `candidates[i]` was).
    pub fn first_found(candidates: &Vec<String>, found: &Vec<bool>) -> (r: Option<String>)
        ensures
            opt_view(r) == first_found(string_views(candidates@), found@),
    {
        let ghost cs = string_views(candidates@);
        let mut i: usize = 0;
        assert(cs.subrange(0, cs.len() as int) =~= cs);
        assert(found@.subrange(0, found@.len() as int) =~= found@);
        while i < candidates.len() && i < found.len()
            invariant
                i <= cs.len(),
                i <= found@.len(),
                cs == string_views(candidates@),
                first_found(cs, found@) == first_found(
                    cs.subrange(i as int, cs.len() as int),
                    found@.subrange(i as int, found@.len() as int),
                ),
            decreases cs.len() - i,
        {
            proof {
                let c = cs.subrange(i as int, cs.len() as int);
                let f = found@.subrange(i as int, found@.len() as int);
                assert(c.drop_first() =~= cs.subrange(i + 1, cs.len() as int));
                assert(f.drop_first() =~= found@.subrange(i + 1, found@.len() as int));
                assert(c[0] == candidates@[i as int]@);
            }
            if found[i] {
                return Some(candidates[i].clone());
            }
            i = i + 1;
        }
        None
    }
}

} // verus!
