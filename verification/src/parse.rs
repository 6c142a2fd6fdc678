//! Parsers for the raw output of probes.
//!
//! Each parser turns the text that one probe produced into a normalized
//! version token, or into nothing where the text does not hold one.

use crate::bridge::{capture_first_group, first_group};
use crate::text::{
    all_digits, chars_of, contains, decimal_value, extend, fields, has_infix, is_token,
    lemma_digits_are_ink, lemma_tidy_is_untouched, lemma_trim_keeps_infix,
    lemma_trimmed_is_token, lemma_words_are_tokens, lines, result_text, same_chars, some_chars,
    some_text, split_fields, split_lines, split_words, starts_with, text_of, trim, trimmed,
    views, words,
};
use vstd::prelude::*;

verus! {

/// An expression for the release line of the compiler banner.
pub const RELEASE_PATTERN: &'static str = r"release (\d+\.\d+)";

/// An expression for the build line of the compiler banner.
pub const BUILD_PATTERN: &'static str = r"V(\d+\.\d+\.\d+)";

/// An expression for the contents of the toolkit's version file.
pub const VERSION_FILE_PATTERN: &'static str = r"CUDA Version (\d+\.\d+)";

/// What the package manager prints for a package that is not installed.
pub const PACKAGE_NOT_FOUND: &'static str = "WARNING: Package(s) not found";

/// The label of the version line in the package manager's listing.
pub const VERSION_LABEL: &'static str = "Version:";

/// The word that begins a directive.
pub const DEFINE: &'static str = "#define";

/// The name of the directive that gives the library's major version.
pub const MAJOR_NAME: &'static str = "CUDNN_MAJOR";

/// The name of the directive that gives the library's minor version.
pub const MINOR_NAME: &'static str = "CUDNN_MINOR";

/// The name of the directive that gives the library's patch level.
pub const PATCH_NAME: &'static str = "CUDNN_PATCHLEVEL";

/// What an interpreter prints for a value that is absent.
pub const ABSENT_VALUE: &'static str = "None";

/// The first of `rows` in which `needle` occurs.
pub open spec fn first_containing(rows: Seq<Seq<char>>, needle: Seq<char>) -> Option<Seq<char>>
    decreases rows.len(),
{
    if rows.len() == 0 {
        None
    } else if has_infix(rows[0], needle) {
        Some(rows[0])
    } else {
        first_containing(rows.drop_first(), needle)
    }
}

/// The first of `rows` that begins with `prefix`.
pub open spec fn first_starting_with(rows: Seq<Seq<char>>, prefix: Seq<char>) -> Option<
    Seq<char>,
>
    decreases rows.len(),
{
    if rows.len() == 0 {
        None
    } else if prefix.is_prefix_of(rows[0]) {
        Some(rows[0])
    } else {
        first_starting_with(rows.drop_first(), prefix)
    }
}

/// The version that an interpreter printed for an imported module: the output
/// without surrounding white space, unless it is empty or carries a sign of
/// failure.
pub open spec fn module_version(raw: Seq<char>) -> Option<Seq<char>> {
    let t = trimmed(raw);
    if t.len() > 0 && !has_infix(t, "not found"@) && !has_infix(t, "No module"@) && !has_infix(
        t,
        "WARNING"@,
    ) {
        Some(t)
    } else {
        None
    }
}

/// The value that an interpreter printed: the output without surrounding white
/// space, unless it is empty or says that the value is absent.
pub open spec fn printed_value(raw: Seq<char>) -> Option<Seq<char>> {
    let t = trimmed(raw);
    if t.len() > 0 && t != ABSENT_VALUE@ {
        Some(t)
    } else {
        None
    }
}

/// The token that text holds plainly: the text without surrounding white
/// space, where anything is left of it.
pub open spec fn plain_token(raw: Seq<char>) -> Option<Seq<char>> {
    let t = trimmed(raw);
    if t.len() > 0 {
        Some(t)
    } else {
        None
    }
}

/// The number that a line of a header gives to the directive `name`: the
/// third word of the line, where the first word begins a directive, the
/// second is the name, and the third is a run of decimal digits. A line that
/// names the directive without a number gives none.
pub open spec fn declared_number(line: Seq<char>, name: Seq<char>) -> Option<Seq<char>> {
    let parts = words(line);
    if parts.len() >= 3 && parts[0] == DEFINE@ && parts[1] == name && decimal_value(parts[2])
        is Some {
        Some(parts[2])
    } else {
        None
    }
}

/// The number that the first of `rows` to give one gives to the directive.
pub open spec fn first_declared(rows: Seq<Seq<char>>, name: Seq<char>) -> Option<Seq<char>>
    decreases rows.len(),
{
    if rows.len() == 0 {
        None
    } else {
        match declared_number(rows[0], name) {
            Some(number) => Some(number),
            None => first_declared(rows.drop_first(), name),
        }
    }
}

/// Some one of `rows` gives the directive a number.
pub open spec fn declared(rows: Seq<Seq<char>>, name: Seq<char>) -> bool {
    exists|k: int| 0 <= k < rows.len() && declared_number(#[trigger] rows[k], name) is Some
}

/// The value of a preprocessor directive in a header: the number that the
/// first line to give it one gives it.
pub open spec fn directive_value(content: Seq<char>, name: Seq<char>) -> Option<Seq<char>> {
    first_declared(lines(content), name)
}

/// The version in a package manager's description of a package: what stands
/// between the first and the second colon of the first line that holds the
/// version label, without surrounding white space. There is none where the
/// output is blank, says that the package was not found, has no such line, or
/// has nothing after the label.
pub open spec fn pip_show_version(raw: Seq<char>) -> Option<Seq<char>> {
    let t = trimmed(raw);
    if t.len() == 0 || has_infix(t, PACKAGE_NOT_FOUND@) {
        None
    } else {
        match first_containing(lines(t), VERSION_LABEL@) {
            None => None,
            Some(line) => {
                let parts = fields(line, ':');
                if parts.len() > 1 && trimmed(parts[1]).len() > 0 {
                    Some(trimmed(parts[1]))
                } else {
                    None
                }
            },
        }
    }
}

/// The version in an environment manager's package listing: the second word
/// of the first line that begins with the package's name.
pub open spec fn conda_list_version(raw: Seq<char>, package: Seq<char>) -> Option<Seq<char>> {
    let t = trimmed(raw);
    if t.len() == 0 {
        None
    } else {
        match first_starting_with(lines(t), package) {
            None => None,
            Some(line) => {
                let parts = words(line);
                if parts.len() >= 2 {
                    Some(parts[1])
                } else {
                    None
                }
            },
        }
    }
}

/// The dotted version that a library header declares: the numbers of its
/// major, minor and patch directives, each found on its own wherever it
/// stands in the header. There is none unless all three are there with a
/// number.
pub open spec fn header_version(content: Seq<char>) -> Option<Seq<char>> {
    match (
        directive_value(content, MAJOR_NAME@),
        directive_value(content, MINOR_NAME@),
        directive_value(content, PATCH_NAME@),
    ) {
        (Some(major), Some(minor), Some(patch)) => Some(
            major + seq!['.'] + minor + seq!['.'] + patch,
        ),
        _ => None,
    }
}

/// The first of two candidates that is there.
pub open spec fn first_present(primary: Option<Seq<char>>, alternate: Option<Seq<char>>) -> Option<
    Seq<char>,
> {
    match primary {
        Some(token) => Some(token),
        None => alternate,
    }
}

/// The toolkit version in a compiler banner: what the release pattern
/// captures, else what the build pattern captures.
pub open spec fn banner_version(raw: Seq<char>) -> Option<Seq<char>> {
    first_present(first_group(RELEASE_PATTERN@, raw), first_group(BUILD_PATTERN@, raw))
}

/// The toolkit version in a compiler banner, by the release pattern alone.
pub open spec fn release_version(raw: Seq<char>) -> Option<Seq<char>> {
    first_group(RELEASE_PATTERN@, raw)
}

/// The toolkit version in the toolkit's version file.
pub open spec fn version_file_version(raw: Seq<char>) -> Option<Seq<char>> {
    first_group(VERSION_FILE_PATTERN@, raw)
}

/// A first line that gives the directive a number is found exactly when
/// some line gives it one, wherever that line stands; and what is found is a
/// run of decimal digits.
pub proof fn lemma_first_declared(rows: Seq<Seq<char>>, name: Seq<char>)
    ensures
        first_declared(rows, name) is Some <==> declared(rows, name),
        first_declared(rows, name) matches Some(number) ==> decimal_value(number) is Some,
    decreases rows.len(),
{
    if rows.len() > 0 {
        if declared_number(rows[0], name) is Some {
            assert(declared(rows, name));
        } else {
            let rest = rows.drop_first();
            lemma_first_declared(rest, name);
            if declared(rest, name) {
                let k = choose|k: int|
                    0 <= k < rest.len() && declared_number(#[trigger] rest[k], name) is Some;
                assert(declared_number(rows[k + 1], name) is Some);
            }
            if declared(rows, name) {
                let k = choose|k: int|
                    0 <= k < rows.len() && declared_number(#[trigger] rows[k], name) is Some;
                assert(declared_number(rest[k - 1], name) is Some);
            }
        }
    }
}

/// A header has a version exactly when each of the three directives stands
/// in some line of it with a number. With one of them missing, or there
/// without a number, there is no version, whatever the other lines hold and
/// in whatever order the lines come.
pub proof fn lemma_header_needs_all_three(content: Seq<char>)
    ensures
        header_version(content) is Some <==> declared(lines(content), MAJOR_NAME@) && declared(
            lines(content),
            MINOR_NAME@,
        ) && declared(lines(content), PATCH_NAME@),
{
    lemma_first_declared(lines(content), MAJOR_NAME@);
    lemma_first_declared(lines(content), MINOR_NAME@);
    lemma_first_declared(lines(content), PATCH_NAME@);
}

/// A line that names a directive and gives it no number declares nothing:
/// the name alone is never taken for a value.
pub proof fn lemma_directive_needs_number(line: Seq<char>, name: Seq<char>)
    requires
        words(line).len() < 3 || decimal_value(words(line)[2]) is None,
    ensures
        declared_number(line, name) is None,
{
}

/// Dotted numbers make a token.
proof fn lemma_dotted_is_token(major: Seq<char>, minor: Seq<char>, patch: Seq<char>)
    requires
        decimal_value(major) is Some,
        decimal_value(minor) is Some,
        decimal_value(patch) is Some,
    ensures
        is_token(major + seq!['.'] + minor + seq!['.'] + patch),
{
    let t = major + seq!['.'] + minor + seq!['.'] + patch;
    lemma_digits_are_ink(major);
    lemma_digits_are_ink(patch);
    assert(t[0] == major[0]);
    assert(t.last() == patch.last());
    lemma_tidy_is_untouched(t);
}

/// Every token that one of these parsers reads is complete and normalized:
/// it is not empty, and it has no white space around it.
pub proof fn lemma_parsers_give_tokens(raw: Seq<char>, package: Seq<char>)
    ensures
        plain_token(raw) matches Some(t) ==> is_token(t),
        module_version(raw) matches Some(t) ==> is_token(t),
        printed_value(raw) matches Some(t) ==> is_token(t),
        pip_show_version(raw) matches Some(t) ==> is_token(t),
        conda_list_version(raw, package) matches Some(t) ==> is_token(t),
        header_version(raw) matches Some(t) ==> is_token(t),
{
    lemma_trimmed_is_token(raw);
    match first_containing(lines(trimmed(raw)), VERSION_LABEL@) {
        Some(line) => {
            if fields(line, ':').len() > 1 {
                lemma_trimmed_is_token(fields(line, ':')[1]);
            }
        },
        None => {},
    }
    match first_starting_with(lines(trimmed(raw)), package) {
        Some(line) => {
            lemma_words_are_tokens(line);
        },
        None => {},
    }
    lemma_first_declared(lines(raw), MAJOR_NAME@);
    lemma_first_declared(lines(raw), MINOR_NAME@);
    lemma_first_declared(lines(raw), PATCH_NAME@);
    match (
        directive_value(raw, MAJOR_NAME@),
        directive_value(raw, MINOR_NAME@),
        directive_value(raw, PATCH_NAME@),
    ) {
        (Some(major), Some(minor), Some(patch)) => {
            lemma_dotted_is_token(major, minor, patch);
        },
        _ => {},
    }
}

/// Output in which the package manager says that the package was not found
/// has no version, whatever else stands in it.
pub proof fn lemma_pip_show_rejects_not_found(raw: Seq<char>)
    requires
        has_infix(raw, PACKAGE_NOT_FOUND@),
    ensures
        pip_show_version(raw) is None,
{
    reveal_strlit("WARNING: Package(s) not found");
    lemma_trim_keeps_infix(raw, PACKAGE_NOT_FOUND@);
}

/// Output of an interpreter that carries a sign of failure has no version,
/// whatever else stands in it.
pub proof fn lemma_module_version_rejects_failure(raw: Seq<char>)
    requires
        has_infix(raw, "not found"@) || has_infix(raw, "No module"@) || has_infix(
            raw,
            "WARNING"@,
        ),
    ensures
        module_version(raw) is None,
{
    reveal_strlit("not found");
    reveal_strlit("No module");
    reveal_strlit("WARNING");
    if has_infix(raw, "not found"@) {
        lemma_trim_keeps_infix(raw, "not found"@);
    } else if has_infix(raw, "No module"@) {
        lemma_trim_keeps_infix(raw, "No module"@);
    } else {
        lemma_trim_keeps_infix(raw, "WARNING"@);
    }
}

/// A version that a parser of this module reads is never made up: what the
/// interpreter parsers return is the output itself, trimmed.
pub proof fn lemma_printed_token_is_output(raw: Seq<char>)
    ensures
        module_version(raw) matches Some(token) ==> token == trimmed(raw) && token.len() > 0,
        printed_value(raw) matches Some(token) ==> token == trimmed(raw) && token.len() > 0,
{
}

/// Finds the first row in which `needle` occurs.
pub fn find_containing<'a>(rows: &'a Vec<Vec<char>>, needle: &Vec<char>) -> (out: Option<
    &'a Vec<char>,
>)
    ensures
        match out {
            Some(row) => first_containing(views(rows@), needle@) == Some(row@),
            None => first_containing(views(rows@), needle@) is None,
        },
{
    let mut i: usize = 0;
    assert(views(rows@).subrange(0, rows@.len() as int) == views(rows@));
    while i < rows.len()
        invariant
            i <= rows.len(),
            first_containing(views(rows@), needle@) == first_containing(
                views(rows@).subrange(i as int, rows@.len() as int),
                needle@,
            ),
        decreases rows.len() - i,
    {
        let ghost rest = views(rows@).subrange(i as int, rows@.len() as int);
        assert(rest[0] == rows@[i as int]@);
        assert(rest.drop_first() == views(rows@).subrange(i + 1, rows@.len() as int));
        if contains(&rows[i], needle) {
            return Some(&rows[i]);
        }
        i = i + 1;
    }
    None
}

/// Finds the first row that begins with `prefix`.
pub fn find_starting_with<'a>(rows: &'a Vec<Vec<char>>, prefix: &Vec<char>) -> (out: Option<
    &'a Vec<char>,
>)
    ensures
        match out {
            Some(row) => first_starting_with(views(rows@), prefix@) == Some(row@),
            None => first_starting_with(views(rows@), prefix@) is None,
        },
{
    let mut i: usize = 0;
    assert(views(rows@).subrange(0, rows@.len() as int) == views(rows@));
    while i < rows.len()
        invariant
            i <= rows.len(),
            first_starting_with(views(rows@), prefix@) == first_starting_with(
                views(rows@).subrange(i as int, rows@.len() as int),
                prefix@,
            ),
        decreases rows.len() - i,
    {
        let ghost rest = views(rows@).subrange(i as int, rows@.len() as int);
        assert(rest[0] == rows@[i as int]@);
        assert(rest.drop_first() == views(rows@).subrange(i + 1, rows@.len() as int));
        if starts_with(&rows[i], prefix) {
            return Some(&rows[i]);
        }
        i = i + 1;
    }
    None
}

/// Reads the version that an interpreter printed for an imported module.
pub fn parse_module_version(raw: &str) -> (out: Option<String>)
    ensures
        some_text(out) == module_version(raw@),
{
    let t = trim(&chars_of(raw));
    if t.len() > 0 && !contains(&t, &chars_of("not found")) && !contains(&t, &chars_of("No module"))
        && !contains(&t, &chars_of("WARNING")) {
        Some(text_of(&t))
    } else {
        None
    }
}

/// Reads a value that an interpreter printed.
pub fn parse_printed_value(raw: &str) -> (out: Option<String>)
    ensures
        some_text(out) == printed_value(raw@),
{
    let t = trim(&chars_of(raw));
    let absent = chars_of(ABSENT_VALUE);
    if t.len() == 0 {
        return None;
    }
    let same = t.len() == absent.len() && starts_with(&t, &absent);
    proof {
        if t@.len() == absent@.len() && absent@.is_prefix_of(t@) {
            assert(t@ =~= absent@);
        }
    }
    if same {
        None
    } else {
        Some(text_of(&t))
    }
}

/// Reads the version from a package manager's description of a package.
pub fn parse_pip_show(raw: &str) -> (out: Option<String>)
    ensures
        some_text(out) == pip_show_version(raw@),
{
    let t = trim(&chars_of(raw));
    if t.len() == 0 || contains(&t, &chars_of(PACKAGE_NOT_FOUND)) {
        return None;
    }
    let rows = split_lines(&t);
    match find_containing(&rows, &chars_of(VERSION_LABEL)) {
        None => None,
        Some(line) => {
            let parts = split_fields(line, ':');
            if parts.len() > 1 {
                assert(views(parts@)[1] == parts@[1]@);
                let value = trim(&parts[1]);
                if value.len() > 0 {
                    Some(text_of(&value))
                } else {
                    None
                }
            } else {
                None
            }
        },
    }
}

/// Reads the version of `package` from an environment manager's listing.
pub fn parse_conda_list(raw: &str, package: &str) -> (out: Option<String>)
    ensures
        some_text(out) == conda_list_version(raw@, package@),
{
    let t = trim(&chars_of(raw));
    if t.len() == 0 {
        return None;
    }
    let rows = split_lines(&t);
    match find_starting_with(&rows, &chars_of(package)) {
        None => None,
        Some(line) => {
            let parts = split_words(line);
            if parts.len() >= 2 {
                assert(views(parts@)[1] == parts@[1]@);
                Some(text_of(&parts[1]))
            } else {
                None
            }
        },
    }
}

/// Reads the token that text holds plainly: see `plain_token`.
pub fn parse_plain_token(raw: &str) -> (out: Option<String>)
    ensures
        some_text(out) == plain_token(raw@),
{
    let t = trim(&chars_of(raw));
    if t.len() > 0 {
        Some(text_of(&t))
    } else {
        None
    }
}

/// Reads the number that a line of a header gives to a directive.
pub fn read_declared_number(line: &Vec<char>, name: &str) -> (out: Option<Vec<char>>)
    ensures
        some_chars(out) == declared_number(line@, name@),
{
    let mut parts = split_words(line);
    if parts.len() >= 3 {
        proof {
            assert(views(parts@)[0] == parts@[0]@);
            assert(views(parts@)[1] == parts@[1]@);
            assert(views(parts@)[2] == parts@[2]@);
        }
        if same_chars(&parts[0], &chars_of(DEFINE)) && same_chars(&parts[1], &chars_of(name))
            && all_digits(&parts[2]) {
            return Some(parts.swap_remove(2));
        }
    }
    None
}

/// Reads the value of one directive from the lines of a header.
pub fn find_directive(rows: &Vec<Vec<char>>, name: &str) -> (out: Option<Vec<char>>)
    ensures
        some_chars(out) == first_declared(views(rows@), name@),
{
    let mut i: usize = 0;
    assert(views(rows@).subrange(0, rows@.len() as int) == views(rows@));
    while i < rows.len()
        invariant
            i <= rows.len(),
            first_declared(views(rows@), name@) == first_declared(
                views(rows@).subrange(i as int, rows@.len() as int),
                name@,
            ),
        decreases rows.len() - i,
    {
        let ghost rest = views(rows@).subrange(i as int, rows@.len() as int);
        assert(rest[0] == rows@[i as int]@);
        assert(rest.drop_first() == views(rows@).subrange(i + 1, rows@.len() as int));
        match read_declared_number(&rows[i], name) {
            Some(number) => {
                return Some(number);
            },
            None => {},
        }
        i = i + 1;
    }
    None
}

/// Reads the dotted version that a library header declares.
pub fn parse_header_version(content: &str) -> (out: Option<String>)
    ensures
        some_text(out) == header_version(content@),
{
    let rows = split_lines(&chars_of(content));
    let major = find_directive(&rows, MAJOR_NAME);
    let minor = find_directive(&rows, MINOR_NAME);
    let patch = find_directive(&rows, PATCH_NAME);
    match (major, minor, patch) {
        (Some(a), Some(b), Some(c)) => {
            let mut version = a;
            version.push('.');
            extend(&mut version, &b);
            version.push('.');
            extend(&mut version, &c);
            assert(version@ =~= a@ + seq!['.'] + b@ + seq!['.'] + c@);
            Some(text_of(&version))
        },
        _ => None,
    }
}

/// Picks the first of two candidate tokens that is there.
pub fn select_first_present(primary: Option<String>, alternate: Option<String>) -> (out: Option<
    String,
>)
    ensures
        some_text(out) == first_present(some_text(primary), some_text(alternate)),
{
    match primary {
        Some(token) => Some(token),
        None => alternate,
    }
}

/// Reads the toolkit version from a compiler banner.
pub fn parse_banner_version(raw: &str) -> (out: Option<String>)
    ensures
        some_text(out) == banner_version(raw@),
        out matches Some(token) ==> has_infix(raw@, token@),
{
    let release = capture_first_group(RELEASE_PATTERN, raw);
    let build = capture_first_group(BUILD_PATTERN, raw);
    select_first_present(release, build)
}

/// Reads the toolkit version from a compiler banner by its release line.
pub fn parse_release_version(raw: &str) -> (out: Option<String>)
    ensures
        some_text(out) == release_version(raw@),
        out matches Some(token) ==> has_infix(raw@, token@),
{
    capture_first_group(RELEASE_PATTERN, raw)
}

/// Reads the toolkit version from the toolkit's version file.
pub fn parse_version_file(raw: &str) -> (out: Option<String>)
    ensures
        some_text(out) == version_file_version(raw@),
        out matches Some(token) ==> has_infix(raw@, token@),
{
    capture_first_group(VERSION_FILE_PATTERN, raw)
}

/// What is reported for a header that declares no complete version.
pub const HEADER_UNREADABLE: &'static str = "Could not parse cuDNN version from header";

/// The version that a header declares, or the report that it declares none.
pub open spec fn header_reading(content: Seq<char>) -> Result<Seq<char>, Seq<char>> {
    match header_version(content) {
        Some(version) => Ok(version),
        None => Err(HEADER_UNREADABLE@),
    }
}

/// Reads the version from the contents of the library's header: the dotted
/// version where the major, minor and patch directives are all there, else
/// the report that the header could not be read.
pub fn extract_cudnn_version_from_header(content: &str) -> (out: Result<String, String>)
    ensures
        result_text(out) == header_reading(content@),
{
    match parse_header_version(content) {
        Some(version) => Ok(version),
        None => Err(HEADER_UNREADABLE.to_string()),
    }
}

} // verus!
