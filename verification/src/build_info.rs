//! Version, commit and build time shown in the About text.
//!
//! The commit hash and build timestamp are embedded at build time when the
//! build environment provides them (`SUMI_COMMIT_HASH`,
//! `SUMI_BUILD_TIMESTAMP`); the caller hands over what was embedded, and a
//! missing value reads as `unknown`.

use vstd::prelude::*;

verus! {

/// The package version.
pub open spec fn package_version() -> Seq<char> {
    "0.1.0"@
}

/// An embedded build value, or `unknown` when none was embedded.
pub open spec fn embedded_or_unknown(embedded: Option<&str>) -> Seq<char> {
    match embedded {
        Some(v) => v@,
        None => "unknown"@,
    }
}

/// The package version.
pub fn app_version() -> (r: &'static str)
    ensures
        r@ == package_version(),
{
    "0.1.0"
}

/// Short commit hash the binary was built from, or `unknown`.
pub fn commit_hash(embedded: Option<&'static str>) -> (r: &'static str)
    ensures
        r@ == embedded_or_unknown(embedded),
{
    match embedded {
        Some(v) => v,
        None => "unknown",
    }
}

/// Build time (UTC, ISO 8601, seconds), or `unknown`.
pub fn build_timestamp(embedded: Option<&'static str>) -> (r: &'static str)
    ensures
        r@ == embedded_or_unknown(embedded),
{
    match embedded {
        Some(v) => v,
        None => "unknown",
    }
}

/// The text of the About summary, one item per line.
pub open spec fn summary_text(
    version: Seq<char>,
    commit: Seq<char>,
    built: Seq<char>,
    config_path: Seq<char>,
) -> Seq<char> {
    "sumi "@ + version + "\ncommit:  "@ + commit + "\nbuilt:   "@ + built + "\nconfig:  "@
        + config_path
}

/// Multi-line summary for the About dialog: version, commit, build time and
/// the config file in use.
pub fn summary(
    config_path: &str,
    embedded_commit: Option<&'static str>,
    embedded_timestamp: Option<&'static str>,
) -> (r: String)
    ensures
        r@ == summary_text(
            package_version(),
            embedded_or_unknown(embedded_commit),
            embedded_or_unknown(embedded_timestamp),
            config_path@,
        ),
{
    let mut s = String::from_str("sumi ");
    s.append(app_version());
    s.append("\ncommit:  ");
    s.append(commit_hash(embedded_commit));
    s.append("\nbuilt:   ");
    s.append(build_timestamp(embedded_timestamp));
    s.append("\nconfig:  ");
    s.append(config_path);
    s
}

/// An embedded value is reported as it is; only a missing one reads `unknown`.
pub proof fn law_embedded_values_are_reported(embedded: &str)
    ensures
        embedded_or_unknown(Some(embedded)) == embedded@,
        embedded_or_unknown(None) == "unknown"@,
{
}

/// The summary is four lines: `sumi ` and the version, then `commit:  `,
/// `built:   ` and `config:  ` each followed by its value, so each value can
/// be read back from its place in the text.
pub proof fn law_summary_lines_carry_their_values(
    version: Seq<char>,
    commit: Seq<char>,
    built: Seq<char>,
    config_path: Seq<char>,
)
    ensures
        ({
            let s = summary_text(version, commit, built, config_path);
            let v = version.len() as int;
            let c = commit.len() as int;
            let b = built.len() as int;
            let cp = config_path.len() as int;
            &&& s.len() == 35 + v + c + b + cp
            &&& s.subrange(0, 5) == seq!['s', 'u', 'm', 'i', ' ']
            &&& s.subrange(5, 5 + v) == version
            &&& s.subrange(5 + v, 15 + v) == seq!['\n', 'c', 'o', 'm', 'm', 'i', 't', ':', ' ', ' ']
            &&& s.subrange(15 + v, 15 + v + c) == commit
            &&& s.subrange(15 + v + c, 25 + v + c) == seq![
                '\n',
                'b',
                'u',
                'i',
                'l',
                't',
                ':',
                ' ',
                ' ',
                ' ',
            ]
            &&& s.subrange(25 + v + c, 25 + v + c + b) == built
            &&& s.subrange(25 + v + c + b, 35 + v + c + b) == seq![
                '\n',
                'c',
                'o',
                'n',
                'f',
                'i',
                'g',
                ':',
                ' ',
                ' ',
            ]
            &&& s.subrange(35 + v + c + b, 35 + v + c + b + cp) == config_path
        }),
{
    reveal_strlit("sumi ");
    reveal_strlit("\ncommit:  ");
    reveal_strlit("\nbuilt:   ");
    reveal_strlit("\nconfig:  ");
    let s = summary_text(version, commit, built, config_path);
    let v = version.len() as int;
    let c = commit.len() as int;
    let b = built.len() as int;
    let cp = config_path.len() as int;
    assert(s.subrange(0, 5) =~= seq!['s', 'u', 'm', 'i', ' ']);
    assert(s.subrange(5, 5 + v) =~= version);
    assert(s.subrange(5 + v, 15 + v) =~= seq!['\n', 'c', 'o', 'm', 'm', 'i', 't', ':', ' ', ' ']);
    assert(s.subrange(15 + v, 15 + v + c) =~= commit);
    assert(s.subrange(15 + v + c, 25 + v + c) =~= seq![
        '\n',
        'b',
        'u',
        'i',
        'l',
        't',
        ':',
        ' ',
        ' ',
        ' ',
    ]);
    assert(s.subrange(25 + v + c, 25 + v + c + b) =~= built);
    assert(s.subrange(25 + v + c + b, 35 + v + c + b) =~= seq![
        '\n',
        'c',
        'o',
        'n',
        'f',
        'i',
        'g',
        ':',
        ' ',
        ' ',
    ]);
    assert(s.subrange(35 + v + c + b, 35 + v + c + b + cp) =~= config_path);
}

} // verus!
