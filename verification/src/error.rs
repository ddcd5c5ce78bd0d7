//! The error taxonomy of the tool: discovery, configuration, toolchain,
//! transform, and scaffolding-precondition failures. Every failure is
//! terminal; each variant renders to a single human-readable message.

use vstd::prelude::*;

verus! {

/// Every fatal condition the pipeline can report.
#[derive(Debug)]
pub enum Error {
    /// No manifest was found in the working directory or any ancestor.
    NoManifest,
    /// The manifest text is not valid TOML; carries the parser's message.
    ManifestParse(String),
    /// No binary target could be resolved from the manifest.
    NoBinTarget,
    /// The build subprocess exited with a failure status; carries the binary name.
    BuildFailed(String),
    /// The subprocess reported success but the expected artifact is absent;
    /// carries the expected path.
    MissingArtifact(String),
    /// The linker's companion facility could not produce a target description.
    TargetJsonFailed(String),
    /// The bytecode linker rejected the ELF; carries its message.
    LinkFailed(String),
    /// The requested template is not in the bundle; carries every name that is.
    UnknownTemplate { requested: String, available: Vec<String> },
    /// The template holds no placeholder manifest; carries the template name.
    TemplateMissingManifest(String),
    /// The template's placeholder manifest could not be parsed or patched.
    TemplateManifestInvalid(String),
    /// The scaffolding target directory already exists; carries its path.
    TargetExists(String),
}

/// `names` joined with a comma and a space between neighbours.
pub open spec fn join_comma(names: Seq<Seq<char>>) -> Seq<char>
    decreases names.len(),
{
    if names.len() == 0 {
        Seq::empty()
    } else if names.len() == 1 {
        names[0]
    } else {
        join_comma(names.drop_last()) + ", "@ + names.last()
    }
}

/// The message reported for an unknown template name.
pub open spec fn unknown_template_message(requested: Seq<char>, available: Seq<Seq<char>>) -> Seq<
    char,
> {
    "Template '"@ + requested + "' not found. Available templates: "@ + join_comma(available)
}

/// The single human-readable message each error renders to.
pub open spec fn error_message(e: Error) -> Seq<char> {
    match e {
        Error::NoManifest => "Could not find Cargo.toml in current directory or parent directories"@,
        Error::ManifestParse(msg) => "Failed to parse Cargo.toml: "@ + msg@,
        Error::NoBinTarget => "No [[bin]] section found in Cargo.toml. Please specify a binary name."@,
        Error::BuildFailed(bin) => "Failed to build binary "@ + bin@,
        Error::MissingArtifact(path) => "ELF binary was not generated at: "@ + path@,
        Error::TargetJsonFailed(msg) => msg@,
        Error::LinkFailed(msg) => "Failed to link PolkaVM program: "@ + msg@,
        Error::UnknownTemplate { requested, available } => unknown_template_message(
            requested@,
            available.deep_view(),
        ),
        Error::TemplateMissingManifest(name) => "Template '"@ + name@
            + "' is missing its _Cargo.toml"@,
        Error::TemplateManifestInvalid(msg) => "Failed to parse template Cargo.toml: "@ + msg@,
        Error::TargetExists(path) => "Directory already exists: "@ + path@,
    }
}

/// Joins the names with ", ", as `join_comma` states.
fn join_names(names: &Vec<String>) -> (r: String)
    ensures
        r@ == join_comma(names.deep_view()),
{
    let ghost all = names.deep_view();
    let mut out = String::new();
    let mut i: usize = 0;
    while i < names.len()
        invariant
            i <= names@.len(),
            all == names.deep_view(),
            out@ == join_comma(all.take(i as int)),
        decreases names@.len() - i,
    {
        if i > 0 {
            out.append(", ");
        }
        out.append(names[i].as_str());
        proof {
            assert(all.take(i + 1).drop_last() =~= all.take(i as int));
            assert(all.take(i + 1).last() == all[i as int]);
            if i == 0 {
                assert(out@ =~= join_comma(all.take(1)));
            }
        }
        i = i + 1;
    }
    proof {
        assert(all.take(all.len() as int) =~= all);
    }
    out
}

impl Error {
    /// Renders the error to the message the tool prints before exiting.
    pub fn message(&self) -> (r: String)
        ensures
            r@ == error_message(*self),
    {
        match self {
            Error::NoManifest => "Could not find Cargo.toml in current directory or parent directories".to_owned(),
            Error::ManifestParse(msg) => {
                let mut out = "Failed to parse Cargo.toml: ".to_owned();
                out.append(msg.as_str());
                out
            },
            Error::NoBinTarget => "No [[bin]] section found in Cargo.toml. Please specify a binary name.".to_owned(),
            Error::BuildFailed(bin) => {
                let mut out = "Failed to build binary ".to_owned();
                out.append(bin.as_str());
                out
            },
            Error::MissingArtifact(path) => {
                let mut out = "ELF binary was not generated at: ".to_owned();
                out.append(path.as_str());
                out
            },
            Error::TargetJsonFailed(msg) => msg.as_str().to_owned(),
            Error::LinkFailed(msg) => {
                let mut out = "Failed to link PolkaVM program: ".to_owned();
                out.append(msg.as_str());
                out
            },
            Error::UnknownTemplate { requested, available } => {
                let mut out = "Template '".to_owned();
                out.append(requested.as_str());
                out.append("' not found. Available templates: ");
                let joined = join_names(available);
                out.append(joined.as_str());
                out
            },
            Error::TemplateMissingManifest(name) => {
                let mut out = "Template '".to_owned();
                out.append(name.as_str());
                out.append("' is missing its _Cargo.toml");
                out
            },
            Error::TemplateManifestInvalid(msg) => {
                let mut out = "Failed to parse template Cargo.toml: ".to_owned();
                out.append(msg.as_str());
                out
            },
            Error::TargetExists(path) => {
                let mut out = "Directory already exists: ".to_owned();
                out.append(path.as_str());
                out
            },
        }
    }
}

/// `needle` stands whole and contiguous somewhere inside `hay`.
pub open spec fn contains_subseq(hay: Seq<char>, needle: Seq<char>) -> bool {
    exists|j: int|
        0 <= j && j + needle.len() <= hay.len() && #[trigger] hay.subrange(j, j + needle.len())
            == needle
}

/// Every name in `names` stands whole somewhere inside `join_comma(names)`:
/// the joined listing enumerates each of them.
pub proof fn lemma_join_comma_lists_each(names: Seq<Seq<char>>, i: int)
    requires
        0 <= i < names.len(),
    ensures
        contains_subseq(join_comma(names), names[i]),
    decreases names.len(),
{
    let joined = join_comma(names);
    let needle = names[i];
    if names.len() == 1 {
        let w: int = 0;
        assert(joined.subrange(w, w + needle.len()) =~= needle);
        assert(joined.subrange(w, w + needle.len()) == needle);
    } else if i == names.len() - 1 {
        let prefix = join_comma(names.drop_last()) + ", "@;
        let w = prefix.len() as int;
        assert(joined.subrange(w, w + needle.len()) =~= needle);
        assert(joined.subrange(w, w + needle.len()) == needle);
    } else {
        let sub = names.drop_last();
        lemma_join_comma_lists_each(sub, i);
        let w = choose|j: int|
            0 <= j && j + sub[i].len() <= join_comma(sub).len() && #[trigger] join_comma(
                sub,
            ).subrange(j, j + sub[i].len()) == sub[i];
        assert(joined.subrange(w, w + needle.len()) =~= join_comma(sub).subrange(
            w,
            w + sub[i].len(),
        ));
        assert(joined.subrange(w, w + needle.len()) == needle);
    }
}

/// The unknown-template failure message enumerates every template name that
/// is actually present in the bundle: each of `available` stands whole inside
/// the message.
pub proof fn lemma_unknown_template_message_enumerates(
    requested: Seq<char>,
    available: Seq<Seq<char>>,
    i: int,
)
    requires
        0 <= i < available.len(),
    ensures
        contains_subseq(unknown_template_message(requested, available), available[i]),
{
    let msg = unknown_template_message(requested, available);
    let prefix = "Template '"@ + requested + "' not found. Available templates: "@;
    lemma_join_comma_lists_each(available, i);
    let j = choose|j: int|
        0 <= j && j + available[i].len() <= join_comma(available).len() && #[trigger] join_comma(
            available,
        ).subrange(j, j + available[i].len()) == available[i];
    let k = prefix.len() + j;
    assert(msg.subrange(k, k + available[i].len()) =~= join_comma(available).subrange(
        j,
        j + available[i].len(),
    ));
    assert(msg.subrange(k, k + available[i].len()) == available[i]);
}

} // verus!
