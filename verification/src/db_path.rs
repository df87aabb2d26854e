//! Choice of the database file, with tilde expansion.
//!
//! The store opens the explicit path argument when one is given, else the
//! path named by the environment override, else a default under the
//! user's configuration directory. A leading `~` component stands for the
//! home directory. Paths are handled as plain strings; looking up the
//! home directory itself is the caller's affair.

use vstd::prelude::*;

verus! {

/// The view of an optional borrowed string.
pub open spec fn opt_str_view(o: Option<&str>) -> Option<Seq<char>> {
    match o {
        Option::Some(s) => Option::Some(s@),
        Option::None => Option::None,
    }
}

/// The view of an optional owned string.
pub open spec fn opt_string_view(o: Option<String>) -> Option<Seq<char>> {
    match o {
        Option::Some(s) => Option::Some(s@),
        Option::None => Option::None,
    }
}

/// A path whose first component is a tilde: exactly `~`, or `~/` and more.
pub open spec fn tilde_prefixed(p: Seq<char>) -> bool {
    p == seq!['~'] || (p.len() >= 2 && p[0] == '~' && p[1] == '/')
}

/// Tilde expansion: a path without a leading tilde component is kept as it
/// is; `~` alone becomes the home directory; `~/rest` becomes the home
/// directory with `rest` appended after a separator (none doubled, and a
/// root home contributes no separator of its own). Without a home
/// directory a tilde-prefixed path cannot be expanded.
pub open spec fn expanded_tilde(p: Seq<char>, home: Option<Seq<char>>) -> Option<Seq<char>> {
    if !tilde_prefixed(p) {
        Option::Some(p)
    } else if p == seq!['~'] {
        home
    } else {
        match home {
            Option::None => Option::None,
            Option::Some(h) => {
                let rest = p.subrange(2, p.len() as int);
                if h == seq!['/'] {
                    Option::Some(rest)
                } else if h.len() > 0 && h[h.len() - 1] == '/' {
                    Option::Some(h + rest)
                } else {
                    Option::Some(h + seq!['/'] + rest)
                }
            },
        }
    }
}

/// Expand a leading tilde component of `path` to the home directory.
pub fn expand_tilde(path: &str, home: Option<&str>) -> (r: Option<String>)
    ensures
        opt_string_view(r) == expanded_tilde(path@, opt_str_view(home)),
{
    let n = path.unicode_len();
    let exact_tilde = n == 1 && path.get_char(0) == '~';
    let tilde_slash = n >= 2 && path.get_char(0) == '~' && path.get_char(1) == '/';
    if exact_tilde {
        proof {
            assert(path@ =~= seq!['~']);
        }
        match home {
            Some(h) => Some(h.to_owned()),
            None => None,
        }
    } else if tilde_slash {
        match home {
            None => None,
            Some(h) => {
                let rest = path.substring_char(2, n);
                let hn = h.unicode_len();
                if hn == 1 && h.get_char(0) == '/' {
                    proof {
                        assert(h@ =~= seq!['/']);
                    }
                    Some(rest.to_owned())
                } else if hn > 0 && h.get_char(hn - 1) == '/' {
                    Some(h.to_owned().concat(rest))
                } else {
                    proof {
                        reveal_strlit("/");
                        assert(("/")@ =~= seq!['/']);
                    }
                    Some(h.to_owned().concat("/").concat(rest))
                }
            },
        }
    } else {
        Some(path.to_owned())
    }
}

/// The default database file, under the user's configuration directory.
pub open spec fn default_db_file() -> Seq<char> {
    "~/.config/youran/db.sqlite"@
}

/// The path the store is asked to open, before tilde expansion: the
/// explicit argument when one is given, else the environment override,
/// else the default.
pub open spec fn chosen_db_file(arg: Option<Seq<char>>, env_db_file: Option<Seq<char>>) -> Seq<
    char,
> {
    match arg {
        Option::Some(p) => p,
        Option::None => match env_db_file {
            Option::Some(p) => p,
            Option::None => default_db_file(),
        },
    }
}

/// The database file the store opens: the explicit argument, else the
/// environment override, else the default, with a leading tilde expanded
/// to the home directory.
pub fn resolve_db_file(arg: Option<&str>, env_db_file: Option<&str>, home: Option<&str>) -> (r:
    Option<String>)
    ensures
        opt_string_view(r) == expanded_tilde(
            chosen_db_file(opt_str_view(arg), opt_str_view(env_db_file)),
            opt_str_view(home),
        ),
{
    let chosen: &str = match arg {
        Some(p) => p,
        None => match env_db_file {
            Some(p) => p,
            None => "~/.config/youran/db.sqlite",
        },
    };
    expand_tilde(chosen, home)
}

} // verus!
