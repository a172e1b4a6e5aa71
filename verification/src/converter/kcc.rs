//! Running Kindle Comic Converter: the arguments it is given, and how its
//! output file is found and named.

use vstd::prelude::*;
use crate::config::Config;
use crate::paths::{join_path, path_join};
use crate::text::{
    chars_of, eq_ic, eq_ignore_ascii_case, starts_with, starts_with_chars, str_eq, to_uppercase,
    unicode_upper,
};
use crate::paths::{extension, extension_of, file_stem, stem_of};

verus! {

/// The output format KCC is asked for: MOBI for AZW3 and MOBI, EPUB and KFX
/// as themselves, MOBI for anything else (compared after upper-casing).
pub open spec fn kcc_format_for(format: Seq<char>) -> Seq<char> {
    let u = unicode_upper(format);
    if u == "AZW3"@ || u == "MOBI"@ {
        "MOBI"@
    } else if u == "EPUB"@ {
        "EPUB"@
    } else if u == "KFX"@ {
        "KFX"@
    } else {
        "MOBI"@
    }
}

/// The extension of KCC's output for a format: `epub`, `kfx`, else `mobi`.
pub open spec fn output_ext_for(format: Seq<char>) -> Seq<char> {
    let u = unicode_upper(format);
    if u == "EPUB"@ {
        "epub"@
    } else if u == "KFX"@ {
        "kfx"@
    } else {
        "mobi"@
    }
}

/// The arguments KCC's command line is run with.
pub open spec fn kcc_args(
    profile: Seq<char>,
    format: Seq<char>,
    manga_style: bool,
    output_dir: Seq<char>,
    cbz: Seq<char>,
) -> Seq<Seq<char>> {
    let head = seq!["-p"@, profile, "-f"@, kcc_format_for(format), "-o"@, output_dir];
    let style = if manga_style {
        seq!["-m"@]
    } else {
        Seq::empty()
    };
    head + style + seq![cbz]
}

/// Whether a file of KCC's output (by name) is the MOBI file made from
/// `stem`: its extension is `mobi` in any ASCII case and its stem starts
/// with `stem`.
pub open spec fn is_mobi_output(name: Seq<char>, stem: Seq<char>) -> bool {
    &&& extension_of(name) matches Some(e) && eq_ic(e, "mobi"@)
    &&& stem_of(name) matches Some(s) && starts_with(s, stem)
}

/// The index of the first name that is the MOBI file made from `stem`.
pub open spec fn first_mobi(names: Seq<Seq<char>>, stem: Seq<char>) -> Option<int>
    decreases names.len(),
{
    if names.len() == 0 {
        None
    } else if is_mobi_output(names[0], stem) {
        Some(0)
    } else {
        match first_mobi(names.drop_first(), stem) {
            Some(i) => Some(i + 1),
            None => None,
        }
    }
}

/// The views of a list of strings.
pub open spec fn name_views(v: Seq<String>) -> Seq<Seq<char>> {
    v.map_values(|s: String| s@)
}

/// Runs Kindle Comic Converter on a CBZ archive.
pub struct KccRunner;

impl KccRunner {
    /// The output format KCC is asked for.
    pub fn kcc_format_arg(format: &str) -> (r: &'static str)
        ensures
            r@ == kcc_format_for(format@),
    {
        let u = to_uppercase(format);
        if str_eq(u.as_str(), "AZW3") || str_eq(u.as_str(), "MOBI") {
            "MOBI"
        } else if str_eq(u.as_str(), "EPUB") {
            "EPUB"
        } else if str_eq(u.as_str(), "KFX") {
            "KFX"
        } else {
            "MOBI"
        }
    }

    /// The extension of KCC's output for a format.
    pub fn output_extension(format: &str) -> (r: &'static str)
        ensures
            r@ == output_ext_for(format@),
    {
        let u = to_uppercase(format);
        if str_eq(u.as_str(), "EPUB") {
            "epub"
        } else if str_eq(u.as_str(), "KFX") {
            "kfx"
        } else {
            "mobi"
        }
    }

    /// The arguments KCC's command line is run with for these settings.
    pub fn conversion_args(config: &Config, output_dir: &str, cbz_path: &str) -> (r: Vec<String>)
        ensures
            name_views(r@) == kcc_args(
                config.kcc_profile@,
                config.kcc_format@,
                config.kcc_manga_style,
                output_dir@,
                cbz_path@,
            ),
    {
        let mut args: Vec<String> = Vec::new();
        args.push(String::from_str("-p"));
        args.push(config.kcc_profile.clone());
        args.push(String::from_str("-f"));
        args.push(String::from_str(Self::kcc_format_arg(config.kcc_format.as_str())));
        args.push(String::from_str("-o"));
        args.push(String::from_str(output_dir));
        if config.kcc_manga_style {
            args.push(String::from_str("-m"));
        }
        args.push(String::from_str(cbz_path));
        assert(name_views(args@) =~= kcc_args(
            config.kcc_profile@,
            config.kcc_format@,
            config.kcc_manga_style,
            output_dir@,
            cbz_path@,
        ));
        args
    }

    /// Whether KCC's MOBI output is renamed to AZW3: where the settings ask
    /// for it, or the format is AZW3 or MOBI (in any ASCII case).
    pub fn should_rename_to_azw3(config: &Config) -> (r: bool)
        ensures
            r == (config.rename_to_azw3 || eq_ic("AZW3"@, config.kcc_format@) || eq_ic(
                "MOBI"@,
                config.kcc_format@,
            )),
    {
        config.rename_to_azw3 || eq_ignore_ascii_case("AZW3", config.kcc_format.as_str())
            || eq_ignore_ascii_case("MOBI", config.kcc_format.as_str())
    }

    /// `stem.ext` in the folder `output_dir`.
    pub fn output_file(output_dir: &str, stem: &str, ext: &str) -> (r: String)
        ensures
            r@ == join_path(output_dir@, stem@ + "."@ + ext@),
    {
        let mut name = String::from_str(stem);
        name.append(".");
        name.append(ext);
        path_join(output_dir, name.as_str())
    }

    /// Among the file names of the output folder, the first that is the MOBI
    /// file made from `stem`.
    pub fn find_mobi_output(names: &Vec<String>, stem: &str) -> (r: Option<usize>)
        ensures
            match r {
                Some(i) => i < names@.len() && first_mobi(name_views(names@), stem@) == Some(i as int),
                None => first_mobi(name_views(names@), stem@) is None,
            },
    {
        let ghost ns = name_views(names@);
        let st = chars_of(stem);
        let mut i: usize = 0;
        assert(ns.subrange(0, ns.len() as int) =~= ns);
        while i < names.len()
            invariant
                i <= ns.len(),
                ns == name_views(names@),
                st@ == stem@,
                first_mobi(ns, stem@) == match first_mobi(ns.subrange(i as int, ns.len() as int), stem@) {
                    Some(k) => Some(k + i),
                    None => None,
                },
            decreases ns.len() - i,
        {
            let name = names[i].as_str();
            let ext_ok = match extension(name) {
                Some(e) => eq_ignore_ascii_case(e.as_str(), "mobi"),
                None => false,
            };
            let stem_ok = match file_stem(name) {
                Some(s) => starts_with_chars(&chars_of(s.as_str()), &st),
                None => false,
            };
            proof {
                let rest = ns.subrange(i as int, ns.len() as int);
                assert(rest[0] == ns[i as int]);
                assert(rest.drop_first() =~= ns.subrange(i + 1, ns.len() as int));
            }
            if ext_ok && stem_ok {
                proof {
                    crate::text::lemma_eq_ic_symmetric(extension_of(ns[i as int]).unwrap(), "mobi"@);
                }
                return Some(i);
            }
            proof {
                if is_mobi_output(ns[i as int], stem@) {
                    crate::text::lemma_eq_ic_symmetric(extension_of(ns[i as int]).unwrap(), "mobi"@);
                }
            }
            i = i + 1;
        }
        None
    }
}


/// KCC is asked for MOBI where the format in upper case is AZW3 or MOBI;
/// for EPUB exactly where it is EPUB, for KFX exactly where it is KFX, and
/// for MOBI otherwise.
pub proof fn lemma_kcc_format_choice(format: Seq<char>)
    ensures
        unicode_upper(format) == "AZW3"@ ==> kcc_format_for(format) == "MOBI"@,
        unicode_upper(format) == "MOBI"@ ==> kcc_format_for(format) == "MOBI"@,
        kcc_format_for(format) == "EPUB"@ <==> unicode_upper(format) == "EPUB"@,
        kcc_format_for(format) == "KFX"@ <==> unicode_upper(format) == "KFX"@,
        kcc_format_for(format) == "MOBI"@ <==> (unicode_upper(format) != "EPUB"@
            && unicode_upper(format) != "KFX"@),
{
    reveal_strlit("MOBI");
    reveal_strlit("EPUB");
    reveal_strlit("KFX");
    reveal_strlit("AZW3");
    assert("MOBI"@ != "EPUB"@) by {
        assert("MOBI"@[0] != "EPUB"@[0]);
    }
    assert("MOBI"@ != "KFX"@) by {
        assert("MOBI"@.len() != "KFX"@.len());
    }
    assert("EPUB"@ != "KFX"@) by {
        assert("EPUB"@.len() != "KFX"@.len());
    }
    assert("AZW3"@ != "EPUB"@) by {
        assert("AZW3"@[0] != "EPUB"@[0]);
    }
    assert("AZW3"@ != "KFX"@) by {
        assert("AZW3"@.len() != "KFX"@.len());
    }
}

} // verus!
