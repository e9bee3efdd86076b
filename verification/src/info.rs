use vstd::prelude::*;
use crate::eh_config::CommandConfig;
use crate::eh_error::EhError;
use crate::eval::{eval_expr_of, make_eval_expr, package_arg, package_arg_of};
use crate::json::{first_member, Json};
use crate::nix_command::{fresh_command, opt_view, CommandKind, NixCommand, NixCommandView};
use crate::nix_config::{with_config, ApplyCommandConfig};
use crate::order::views;
use crate::text::{chars_of, decimal, decimal_string, ends_with, join, join_strings};

verus! {

broadcast use vstd::string::group_string_axioms;

// ---------------------------------------------------------------------
// Names
// ---------------------------------------------------------------------

/// The position of the last `#` in `s`.
pub open spec fn last_hash(s: Seq<char>) -> Option<int>
    decreases s.len(),
{
    if s.len() == 0 {
        None
    } else if s.last() == '#' {
        Some(s.len() - 1)
    } else {
        last_hash(s.drop_last())
    }
}

/// What follows the last `#` of `s`; all of `s` without one.
pub open spec fn after_last_hash(s: Seq<char>) -> Seq<char> {
    match last_hash(s) {
        Some(i) => s.subrange(i + 1, s.len() as int),
        None => s,
    }
}

/// `s` without any `.meta` at its end, however often repeated.
pub open spec fn strip_meta(s: Seq<char>) -> Seq<char>
    decreases s.len(),
{
    if s.len() >= 5 && ends_with(s, ".meta"@) {
        strip_meta(s.subrange(0, s.len() - 5))
    } else {
        s
    }
}

/// The package an evaluation expression is about: the attribute after the
/// last `#`, without `.meta`; `default` when that leaves nothing.
pub open spec fn package_name_of_expr(eval_arg: Seq<char>) -> Seq<char> {
    let name = strip_meta(after_last_hash(eval_arg));
    if name.len() == 0 {
        "default"@
    } else {
        name
    }
}

proof fn lemma_last_hash_prefix(s: Seq<char>, k: int)
    requires
        0 <= k <= s.len(),
        forall|j: int| k <= j < s.len() ==> s[j] != '#',
    ensures
        last_hash(s) == last_hash(s.subrange(0, k)),
    decreases s.len() - k,
{
    if k < s.len() {
        assert(s.drop_last().subrange(0, k) =~= s.subrange(0, k));
        lemma_last_hash_prefix(s.drop_last(), k);
    } else {
        assert(s.subrange(0, k) =~= s);
    }
}

pub fn package_name_from_eval_expr(eval_arg: &str) -> (r: String)
    ensures
        r@ == package_name_of_expr(eval_arg@),
{
    let chars = chars_of(eval_arg);
    let n = chars.len();
    let mut k = n;
    while k > 0 && chars[k - 1] != '#'
        invariant
            k <= n,
            n == chars@.len(),
            chars@ == eval_arg@,
            forall|j: int| k <= j < n ==> chars@[j] != '#',
        decreases k,
    {
        k = k - 1;
    }
    // `start` is the first character after the last `#`, or 0.
    let start = k;
    proof {
        lemma_last_hash_prefix(eval_arg@, k as int);
        if k > 0 {
            assert(chars@[k - 1] == '#');
            let p = eval_arg@.subrange(0, k as int);
            assert(p.last() == '#');
            assert(last_hash(p) == Some(k - 1));
        } else {
            assert(eval_arg@.subrange(0, 0) =~= Seq::<char>::empty());
        }
        assert(after_last_hash(eval_arg@) =~= eval_arg@.subrange(start as int, n as int));
    }
    let mut end = n;
    while end - start >= 5 && chars[end - 5] == '.' && chars[end - 4] == 'm' && chars[end - 3] == 'e'
        && chars[end - 2] == 't' && chars[end - 1] == 'a'
        invariant
            start <= end <= n,
            n == chars@.len(),
            chars@ == eval_arg@,
            strip_meta(after_last_hash(eval_arg@)) == strip_meta(eval_arg@.subrange(start as int, end as int)),
        decreases end,
    {
        proof {
            reveal_strlit(".meta");
            let s = eval_arg@.subrange(start as int, end as int);
            assert(s.subrange(s.len() - 5, s.len() as int) =~= ".meta"@);
            assert(s.subrange(0, s.len() - 5) =~= eval_arg@.subrange(start as int, end - 5));
        }
        end = end - 5;
    }
    proof {
        reveal_strlit(".meta");
        let s = eval_arg@.subrange(start as int, end as int);
        if s.len() >= 5 && ends_with(s, ".meta"@) {
            let t = s.subrange(s.len() - 5, s.len() as int);
            assert(t[0] == chars@[end - 5]);
            assert(t[1] == chars@[end - 4]);
            assert(t[2] == chars@[end - 3]);
            assert(t[3] == chars@[end - 2]);
            assert(t[4] == chars@[end - 1]);
        }
        assert(strip_meta(s) == s);
    }
    if end == start {
        proof {
            reveal_strlit("default");
        }
        "default".to_string()
    } else {
        eval_arg.substring_char(start, end).to_string()
    }
}

// ---------------------------------------------------------------------
// Licenses
// ---------------------------------------------------------------------

/// The string a value holds, if it is one.
pub open spec fn json_text(j: Option<Json>) -> Option<Seq<char>> {
    match j {
        Some(Json::Str(s)) => Some(s@),
        _ => None,
    }
}

/// The name of a license: the string itself, or an object's `spdxId`,
/// failing that its `shortName`.
pub open spec fn license_name_of(license: Json) -> Option<Seq<char>> {
    match license {
        Json::Str(s) => Some(s@),
        Json::Object(m) => match json_text(first_member(m@, "spdxId"@)) {
            Some(id) => Some(id),
            None => json_text(first_member(m@, "shortName"@)),
        },
        _ => None,
    }
}

/// The names of the licenses in `ls` that have one, in order.
pub open spec fn license_names(ls: Seq<Json>) -> Seq<Seq<char>>
    decreases ls.len(),
{
    if ls.len() == 0 {
        seq![]
    } else {
        license_names(ls.drop_last()) + match license_name_of(ls.last()) {
            Some(n) => seq![n],
            None => seq![],
        }
    }
}

/// The license line: the names of a list joined by `, `, a single name, or
/// `Unknown`.
pub open spec fn format_license_of(license: Json) -> Seq<char> {
    match license {
        Json::Array(ls) => {
            let names = license_names(ls@);
            if names.len() == 0 {
                "Unknown"@
            } else {
                join(names, ", "@)
            }
        },
        other => match license_name_of(other) {
            Some(n) => n,
            None => "Unknown"@,
        },
    }
}

fn text_of(j: Option<&Json>) -> (r: Option<String>)
    ensures
        opt_view(r) == json_text(match j {
            Some(v) => Some(*v),
            None => None,
        }),
{
    match j {
        Some(v) => match v.as_str() {
            Some(s) => Some(s.clone()),
            None => None,
        },
        None => None,
    }
}

pub fn license_name(license: &Json) -> (r: Option<String>)
    ensures
        opt_view(r) == license_name_of(*license),
{
    match license {
        Json::Str(s) => Some(s.clone()),
        Json::Object(_) => {
            match text_of(license.get("spdxId")) {
                Some(id) => Some(id),
                None => text_of(license.get("shortName")),
            }
        },
        _ => None,
    }
}

pub fn format_license(license: &Json) -> (r: String)
    ensures
        r@ == format_license_of(*license),
{
    proof {
        reveal_strlit("Unknown");
    }
    match license {
        Json::Array(ls) => {
            let mut names: Vec<String> = Vec::new();
            for i in 0..ls.len()
                invariant
                    views(names@) == license_names(ls@.take(i as int)),
            {
                let ghost before = names@;
                match license_name(&ls[i]) {
                    Some(n) => names.push(n),
                    None => {},
                }
                proof {
                    assert(ls@.take(i + 1).drop_last() =~= ls@.take(i as int));
                    assert(ls@.take(i + 1).last() == ls@[i as int]);
                    assert(views(names@) =~= license_names(ls@.take(i + 1)));
                }
            }
            assert(ls@.take(ls@.len() as int) =~= ls@);
            if names.len() == 0 {
                "Unknown".to_string()
            } else {
                join_strings(names.as_slice(), ", ")
            }
        },
        other => match license_name(other) {
            Some(n) => n,
            None => "Unknown".to_string(),
        },
    }
}


// ---------------------------------------------------------------------
// Text filling
// ---------------------------------------------------------------------

/// The text that `textwrap::fill` makes of `text` at `width` columns.
pub uninterp spec fn filled_text(text: Seq<char>, width: usize) -> Seq<char>;

/// `text` filled to lines of at most `width` columns, by `textwrap::fill`.
#[verifier::external_body]
fn fill_text(text: &str, width: usize) -> (r: String)
    ensures
        r@ == filled_text(text@, width),
{
    textwrap::fill(text, width)
}

// ---------------------------------------------------------------------
// The report
// ---------------------------------------------------------------------

/// A package's metadata, as `nix eval --json …meta` prints it.
pub struct PackageMeta {
    pub name: String,
    pub version: Option<String>,
    pub description: Option<String>,
    pub long_description: Option<String>,
    pub license: Option<Json>,
    pub homepage: Option<String>,
    pub platforms: Option<Vec<String>>,
    pub broken: Option<bool>,
    pub insecure: Option<bool>,
    pub unfree: Option<bool>,
}

/// A flag that makes a package unavailable by default.
#[derive(Clone, Copy, Debug, PartialEq, Eq, Structural)]
pub enum StatusFlag {
    Broken,
    Insecure,
    Unfree,
}

/// One line of the package report.
pub enum InfoLine {
    Blank,
    /// `  LABEL VALUE`.
    Field { label: &'static str, value: String },
    /// A filled paragraph, each of its lines indented by four spaces.
    Paragraph { text: String },
    /// `  LABEL`.
    Heading { label: &'static str },
    /// `    Status: …`: the flags that are set, or available when none is.
    Status { flags: Vec<StatusFlag> },
    /// `    Platforms: …`.
    Platforms { summary: String },
    /// `    • NAME`, marked as the default output for `out`.
    Output { name: String, default: bool },
    /// `    COMMAND PACKAGE COMMENT`.
    Usage { command: &'static str, package: String, comment: &'static str },
}

pub enum InfoLineView {
    Blank,
    Field(Seq<char>, Seq<char>),
    Paragraph(Seq<char>),
    Heading(Seq<char>),
    Status(Seq<StatusFlag>),
    Platforms(Seq<char>),
    Output(Seq<char>, bool),
    Usage(Seq<char>, Seq<char>, Seq<char>),
}

impl View for InfoLine {
    type V = InfoLineView;

    open spec fn view(&self) -> InfoLineView {
        match self {
            InfoLine::Blank => InfoLineView::Blank,
            InfoLine::Field { label, value } => InfoLineView::Field(label@, value@),
            InfoLine::Paragraph { text } => InfoLineView::Paragraph(text@),
            InfoLine::Heading { label } => InfoLineView::Heading(label@),
            InfoLine::Status { flags } => InfoLineView::Status(flags@),
            InfoLine::Platforms { summary } => InfoLineView::Platforms(summary@),
            InfoLine::Output { name, default } => InfoLineView::Output(name@, *default),
            InfoLine::Usage { command, package, comment } => InfoLineView::Usage(
                command@,
                package@,
                comment@,
            ),
        }
    }
}

pub open spec fn line_views(ls: Seq<InfoLine>) -> Seq<InfoLineView> {
    ls.map_values(|l: InfoLine| l@)
}

/// `  LABEL VALUE` when there is a value.
pub open spec fn optional_field(label: Seq<char>, value: Option<String>) -> Seq<InfoLineView> {
    match value {
        Some(v) => seq![InfoLineView::Field(label, v@)],
        None => seq![],
    }
}

/// The long description, filled at 70 columns after a blank line, unless it
/// only repeats the description.
pub open spec fn long_description_part(meta: PackageMeta) -> Seq<InfoLineView> {
    match meta.long_description {
        Some(ld) => if (match meta.description {
            Some(d) => d@ != ld@,
            None => true,
        }) {
            seq![InfoLineView::Blank, InfoLineView::Paragraph(filled_text(ld@, 70))]
        } else {
            seq![]
        },
        None => seq![],
    }
}

/// The flags set on the package, in the order broken, insecure, unfree.
pub open spec fn status_flags(meta: PackageMeta) -> Seq<StatusFlag> {
    (if meta.broken == Some(true) {
        seq![StatusFlag::Broken]
    } else {
        seq![]
    }) + (if meta.insecure == Some(true) {
        seq![StatusFlag::Insecure]
    } else {
        seq![]
    }) + (if meta.unfree == Some(true) {
        seq![StatusFlag::Unfree]
    } else {
        seq![]
    })
}

/// The first four platforms, and how many more there are.
pub open spec fn platform_summary_of(ps: Seq<Seq<char>>) -> Seq<char> {
    if ps.len() > 4 {
        join(ps.take(4), ", "@) + " + "@ + decimal((ps.len() - 4) as nat) + " more"@
    } else {
        join(ps, ", "@)
    }
}

/// One line per output, `out` marked as the default.
pub open spec fn output_lines(names: Seq<Seq<char>>) -> Seq<InfoLineView> {
    names.map_values(|n: Seq<char>| InfoLineView::Output(n, n == "out"@))
}

/// The head of the report: name, version, descriptions, license, homepage.
pub open spec fn header_part(meta: PackageMeta) -> Seq<InfoLineView> {
    seq![InfoLineView::Blank, InfoLineView::Field("Package:"@, meta.name@)]
        + optional_field("Version:"@, meta.version)
        + optional_field("Description:"@, meta.description)
        + long_description_part(meta)
        + (match meta.license {
            Some(l) => seq![InfoLineView::Field("License:"@, format_license_of(l))],
            None => seq![],
        })
        + optional_field("Homepage:"@, meta.homepage)
}

/// The `Meta:` section, then the outputs when they are known.
pub open spec fn meta_part(meta: PackageMeta, outputs: Option<Seq<Seq<char>>>) -> Seq<InfoLineView> {
    seq![InfoLineView::Blank, InfoLineView::Heading("Meta:"@), InfoLineView::Status(status_flags(meta))]
        + (match meta.platforms {
            Some(ps) => seq![InfoLineView::Platforms(platform_summary_of(views(ps@)))],
            None => seq![],
        })
        + (match outputs {
            Some(names) => seq![InfoLineView::Blank, InfoLineView::Heading("Outputs:"@)] + output_lines(names),
            None => seq![],
        })
}

/// How to use `pkg`.
pub open spec fn usage_part(pkg: Seq<char>) -> Seq<InfoLineView> {
    seq![
        InfoLineView::Blank,
        InfoLineView::Heading("Usage:"@),
        InfoLineView::Usage("eh run"@, pkg, "# Run the package"@),
        InfoLineView::Usage("eh shell"@, pkg, "# Enter shell with package"@),
        InfoLineView::Blank,
    ]
}

/// The report on a package: its metadata, its outputs when they are known,
/// and how to use `pkg`.
pub open spec fn info_lines_of(meta: PackageMeta, outputs: Option<Seq<Seq<char>>>, pkg: Seq<char>) -> Seq<InfoLineView> {
    header_part(meta) + meta_part(meta, outputs) + usage_part(pkg)
}

fn push_line(out: &mut Vec<InfoLine>, l: InfoLine)
    ensures
        line_views(final(out)@) == line_views(old(out)@).push(l@),
{
    let ghost before = out@;
    out.push(l);
    assert(line_views(out@) =~= line_views(before).push(l@));
}

fn append_lines(out: &mut Vec<InfoLine>, more: Vec<InfoLine>)
    ensures
        line_views(final(out)@) == line_views(old(out)@) + line_views(more@),
{
    let mut more = more;
    let ghost before = out@;
    let ghost added = more@;
    out.append(&mut more);
    assert(line_views(out@) =~= line_views(before) + line_views(added));
}

fn optional_field_lines(label: &'static str, value: &Option<String>) -> (r: Vec<InfoLine>)
    ensures
        line_views(r@) == optional_field(label@, *value),
{
    let mut r: Vec<InfoLine> = Vec::new();
    match value {
        Some(v) => push_line(&mut r, InfoLine::Field { label, value: v.clone() }),
        None => {},
    }
    assert(line_views(r@) =~= optional_field(label@, *value));
    r
}

fn long_description_lines(meta: &PackageMeta) -> (r: Vec<InfoLine>)
    ensures
        line_views(r@) == long_description_part(*meta),
{
    let mut r: Vec<InfoLine> = Vec::new();
    match &meta.long_description {
        Some(ld) => {
            let show = match &meta.description {
                Some(d) => !crate::text::str_eq(d.as_str(), ld.as_str()),
                None => true,
            };
            if show {
                push_line(&mut r, InfoLine::Blank);
                push_line(&mut r, InfoLine::Paragraph { text: fill_text(ld.as_str(), 70) });
            }
        },
        None => {},
    }
    assert(line_views(r@) =~= long_description_part(*meta));
    r
}

fn status_flag_list(meta: &PackageMeta) -> (r: Vec<StatusFlag>)
    ensures
        r@ == status_flags(*meta),
{
    let mut r: Vec<StatusFlag> = Vec::new();
    if meta.broken == Some(true) {
        r.push(StatusFlag::Broken);
    }
    if meta.insecure == Some(true) {
        r.push(StatusFlag::Insecure);
    }
    if meta.unfree == Some(true) {
        r.push(StatusFlag::Unfree);
    }
    assert(r@ =~= status_flags(*meta));
    r
}

/// The platforms line: the first four platforms, then how many more.
pub fn platform_summary(platforms: &[String]) -> (r: String)
    ensures
        r@ == platform_summary_of(views(platforms@)),
{
    let n = platforms.len();
    if n > 4 {
        let mut first: Vec<String> = Vec::new();
        for i in 0..4
            invariant
                n == platforms.len(),
                n > 4,
                first@ == platforms@.take(i as int),
        {
            first.push(platforms[i].clone());
            assert(first@ =~= platforms@.take(i + 1));
        }
        assert(views(first@) =~= views(platforms@).take(4));
        let mut s = join_strings(first.as_slice(), ", ");
        s.append(" + ");
        s.append(decimal_string((n - 4) as u64).as_str());
        s.append(" more");
        s
    } else {
        join_strings(platforms, ", ")
    }
}

fn output_line_list(names: &[String]) -> (r: Vec<InfoLine>)
    ensures
        line_views(r@) == output_lines(views(names@)),
{
    proof {
        reveal_strlit("out");
    }
    let mut r: Vec<InfoLine> = Vec::new();
    for i in 0..names.len()
        invariant
            line_views(r@) == output_lines(views(names@).take(i as int)),
    {
        let default = crate::text::str_eq(names[i].as_str(), "out");
        push_line(&mut r, InfoLine::Output { name: names[i].clone(), default });
        assert(output_lines(views(names@).take(i + 1)) =~= output_lines(views(names@).take(i as int)).push(
            InfoLineView::Output(names@[i as int]@, names@[i as int]@ == "out"@),
        ));
    }
    assert(views(names@).take(names@.len() as int) =~= views(names@));
    r
}

fn header_lines(meta: &PackageMeta) -> (r: Vec<InfoLine>)
    ensures
        line_views(r@) == header_part(*meta),
{
    let mut r: Vec<InfoLine> = Vec::new();
    push_line(&mut r, InfoLine::Blank);
    push_line(&mut r, InfoLine::Field { label: "Package:", value: meta.name.clone() });
    append_lines(&mut r, optional_field_lines("Version:", &meta.version));
    append_lines(&mut r, optional_field_lines("Description:", &meta.description));
    append_lines(&mut r, long_description_lines(meta));
    let ghost before_license = r@;
    match &meta.license {
        Some(l) => push_line(&mut r, InfoLine::Field { label: "License:", value: format_license(l) }),
        None => {},
    }
    let ghost after_license = r@;
    append_lines(&mut r, optional_field_lines("Homepage:", &meta.homepage));
    proof {
        let license_part: Seq<InfoLineView> = if meta.license is Some {
            seq![InfoLineView::Field("License:"@, format_license_of(meta.license->0))]
        } else {
            seq![]
        };
        assert(line_views(after_license) =~= line_views(before_license) + license_part);
        assert(line_views(r@) =~= header_part(*meta));
    }
    r
}

fn meta_lines(meta: &PackageMeta, outputs: Option<&[String]>) -> (r: Vec<InfoLine>)
    ensures
        line_views(r@) == meta_part(
            *meta,
            match outputs {
                Some(o) => Some(views(o@)),
                None => None,
            },
        ),
{
    let mut r: Vec<InfoLine> = Vec::new();
    push_line(&mut r, InfoLine::Blank);
    push_line(&mut r, InfoLine::Heading { label: "Meta:" });
    push_line(&mut r, InfoLine::Status { flags: status_flag_list(meta) });
    let ghost before_platforms = r@;
    match &meta.platforms {
        Some(ps) => push_line(&mut r, InfoLine::Platforms { summary: platform_summary(ps.as_slice()) }),
        None => {},
    }
    let ghost after_platforms = r@;
    match outputs {
        Some(names) => {
            push_line(&mut r, InfoLine::Blank);
            push_line(&mut r, InfoLine::Heading { label: "Outputs:" });
            append_lines(&mut r, output_line_list(names));
        },
        None => {},
    }
    proof {
        let platform_part: Seq<InfoLineView> = if meta.platforms is Some {
            seq![InfoLineView::Platforms(platform_summary_of(views(meta.platforms->0@)))]
        } else {
            seq![]
        };
        assert(line_views(after_platforms) =~= line_views(before_platforms) + platform_part);
        let outs = match outputs {
            Some(o) => Some(views(o@)),
            None => None,
        };
        let output_part: Seq<InfoLineView> = match outs {
            Some(names) => seq![InfoLineView::Blank, InfoLineView::Heading("Outputs:"@)] + output_lines(names),
            None => seq![],
        };
        assert(line_views(r@) =~= line_views(after_platforms) + output_part);
        assert(line_views(r@) =~= meta_part(*meta, outs));
    }
    r
}

fn usage_lines(pkg_ref: &str) -> (r: Vec<InfoLine>)
    ensures
        line_views(r@) == usage_part(pkg_ref@),
{
    let mut r: Vec<InfoLine> = Vec::new();
    push_line(&mut r, InfoLine::Blank);
    push_line(&mut r, InfoLine::Heading { label: "Usage:" });
    push_line(
        &mut r,
        InfoLine::Usage { command: "eh run", package: pkg_ref.to_string(), comment: "# Run the package" },
    );
    push_line(
        &mut r,
        InfoLine::Usage {
            command: "eh shell",
            package: pkg_ref.to_string(),
            comment: "# Enter shell with package",
        },
    );
    push_line(&mut r, InfoLine::Blank);
    assert(line_views(r@) =~= usage_part(pkg_ref@));
    r
}

/// The report on a package, line by line: its metadata, its outputs when
/// they are known, and how to use `pkg_ref`.
pub fn print_package_info(meta: &PackageMeta, outputs: Option<&[String]>, pkg_ref: &str) -> (r: Vec<InfoLine>)
    ensures
        line_views(r@) == info_lines_of(
            *meta,
            match outputs {
                Some(o) => Some(views(o@)),
                None => None,
            },
            pkg_ref@,
        ),
{
    let mut r = header_lines(meta);
    append_lines(&mut r, meta_lines(meta, outputs));
    append_lines(&mut r, usage_lines(pkg_ref));
    r
}

// ---------------------------------------------------------------------
// The `info` subcommand
// ---------------------------------------------------------------------

/// `nix eval --json EXPR` without build logs, with the settings applied.
pub open spec fn info_eval_command(expr: Seq<char>, cfg: crate::eh_config::CommandConfigView) -> NixCommandView {
    with_config(
        NixCommandView {
            args: seq!["--json"@, expr],
            print_build_logs: false,
            ..fresh_command(CommandKind::Eval)
        },
        cfg,
    )
}

/// The expression for a package's outputs, from the one for its `meta`.
pub open spec fn outputs_expr_of(eval_arg: Seq<char>) -> Seq<char> {
    (if ends_with(eval_arg, ".meta"@) {
        eval_arg.subrange(0, eval_arg.len() - 5)
    } else {
        eval_arg
    }) + ".outputs"@
}

/// What the `info` subcommand looks at, and how.
pub struct InfoPlan {
    /// The installable as the user named it (`.` without one).
    pub package: String,
    /// The expression for its `meta` attribute.
    pub eval_arg: String,
    /// The package's name, for the log.
    pub package_name: String,
    /// `nix eval --json EXPR.meta`.
    pub meta_command: NixCommand,
    /// `nix eval --json EXPR.outputs`.
    pub outputs_command: NixCommand,
}

fn info_command(expr: &str, cfg: &CommandConfig) -> (r: NixCommand)
    ensures
        r@ == info_eval_command(expr@, cfg@),
{
    let c = NixCommand::new(CommandKind::Eval).arg("--json").arg(expr).print_build_logs(false);
    assert(c@.args =~= seq!["--json"@, expr@]);
    c.apply_config(cfg)
}

/// The `info` subcommand's plan for `args`: the first installable (`.`
/// without one), the expressions for its metadata and outputs, and the
/// commands that evaluate them. Fails for a blank installable.
pub fn handle_info(args: &[String], cfg: &CommandConfig) -> (r: Result<InfoPlan, EhError>)
    ensures
        match eval_expr_of(crate::retry_flow::eval_arg_of(views(args@))) {
            None => r == Err::<InfoPlan, EhError>(EhError::InvalidEvalInput),
            Some(e) => r matches Ok(plan) && plan.package@ == crate::retry_flow::eval_arg_of(
                views(args@),
            ) && plan.eval_arg@ == e && plan.package_name@ == package_name_of_expr(e)
                && plan.meta_command@ == info_eval_command(e, cfg@) && plan.outputs_command@
                == info_eval_command(outputs_expr_of(e), cfg@),
        },
{
    proof {
        reveal_strlit(".");
        reveal_strlit(".meta");
        reveal_strlit(".outputs");
    }
    let pkg: &str = match package_arg(args) {
        Some(a) => a,
        None => ".",
    };
    let eval_arg = make_eval_expr(pkg)?;
    let package_name = package_name_from_eval_expr(eval_arg.as_str());
    let meta_command = info_command(eval_arg.as_str(), cfg);
    let base: String = if crate::text::ends_with_str(eval_arg.as_str(), ".meta") {
        let n = eval_arg.as_str().unicode_len();
        eval_arg.as_str().substring_char(0, n - 5).to_string()
    } else {
        eval_arg.clone()
    };
    let mut outputs_expr = base;
    outputs_expr.append(".outputs");
    let outputs_command = info_command(outputs_expr.as_str(), cfg);
    Ok(InfoPlan { package: pkg.to_string(), eval_arg, package_name, meta_command, outputs_command })
}


/// How the evaluation of a package's `meta` went.
pub enum MetaOutcome {
    /// `nix eval` exited with failure.
    Failed,
    /// It printed something that is not a package's metadata.
    Unparsable { message: String },
    /// It printed this metadata.
    Parsed { meta: PackageMeta },
}

/// The `info` subcommand's answer once its evaluations are done: an error
/// when the metadata could not be had, else the report on the package,
/// with its outputs when their evaluation succeeded and named them.
pub fn info_report(plan: &InfoPlan, meta: MetaOutcome, outputs_success: bool, outputs: Option<Vec<String>>) -> (r: Result<Vec<InfoLine>, EhError>)
    ensures
        match meta {
            MetaOutcome::Failed => r matches Err(EhError::NixCommandFailed { command }) && command@
                == "eval"@,
            MetaOutcome::Unparsable { message } => r matches Err(EhError::Io(m)) && m@
                == "Failed to parse package metadata: "@ + message@,
            MetaOutcome::Parsed { meta } => r matches Ok(lines) && line_views(lines@)
                == info_lines_of(
                meta,
                if outputs_success {
                    match outputs {
                        Some(o) => Some(views(o@)),
                        None => None,
                    }
                } else {
                    None
                },
                plan.package@,
            ),
        },
{
    match meta {
        MetaOutcome::Failed => Err(EhError::NixCommandFailed { command: "eval".to_string() }),
        MetaOutcome::Unparsable { message } => {
            let mut m = "Failed to parse package metadata: ".to_string();
            m.append(message.as_str());
            Err(EhError::Io(m))
        },
        MetaOutcome::Parsed { meta } => {
            let names: Option<&[String]> = if outputs_success {
                match &outputs {
                    Some(o) => Some(o.as_slice()),
                    None => None,
                }
            } else {
                None
            };
            Ok(print_package_info(&meta, names, plan.package.as_str()))
        },
    }
}

} // verus!
