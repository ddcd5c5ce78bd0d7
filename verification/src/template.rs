//! The template materializer: resolving a named skeleton out of the bundle,
//! and planning the writes that populate a fresh project directory.
//!
//! The bundle is a read-only tree of named templates; each file is a relative
//! path (as components) and its bytes. Every file is copied verbatim except
//! the reserved placeholder manifest, which is parsed, its package name
//! overwritten with the project name, and re-emitted under the real manifest
//! name. The front end creates the directory and performs the writes in
//! order, with no rollback on partial failure: a failed write leaves the
//! directory with the files already written.

use vstd::prelude::*;
use crate::error::Error;

verus! {

/// One file of a template, or one planned write: a relative path as its
/// components, and the bytes to place there.
#[derive(Debug)]
pub struct TemplateFile {
    pub rel_path: Vec<String>,
    pub contents: Vec<u8>,
}

/// The abstract value of a `TemplateFile`.
pub struct FileView {
    pub rel_path: Seq<Seq<char>>,
    pub contents: Seq<u8>,
}

impl View for TemplateFile {
    type V = FileView;

    open spec fn view(&self) -> FileView {
        FileView { rel_path: self.rel_path.deep_view(), contents: self.contents@ }
    }
}

/// A named project skeleton of the bundle.
pub struct Template {
    pub name: String,
    pub files: Vec<TemplateFile>,
}

/// The abstract values of a sequence of files.
pub open spec fn file_views(s: Seq<TemplateFile>) -> Seq<FileView> {
    s.map_values(|f: TemplateFile| f@)
}

/// The index of the first element satisfying `pred`, if any.
pub open spec fn first_where<A>(s: Seq<A>, pred: spec_fn(A) -> bool) -> Option<int>
    decreases s.len(),
{
    if s.len() == 0 {
        None
    } else if pred(s[0]) {
        Some(0)
    } else {
        match first_where(s.drop_first(), pred) {
            Some(i) => Some(i + 1),
            None => None,
        }
    }
}

proof fn lemma_first_where_at<A>(s: Seq<A>, pred: spec_fn(A) -> bool, k: int)
    requires
        0 <= k < s.len(),
        pred(s[k]),
        forall|j: int| 0 <= j < k ==> !pred(s[j]),
    ensures
        first_where(s, pred) == Some(k),
    decreases k,
{
    if k > 0 {
        lemma_first_where_at(s.drop_first(), pred, k - 1);
    }
}

proof fn lemma_first_where_none<A>(s: Seq<A>, pred: spec_fn(A) -> bool)
    requires
        forall|j: int| 0 <= j < s.len() ==> !pred(s[j]),
    ensures
        first_where(s, pred) is None,
    decreases s.len(),
{
    if s.len() > 0 {
        lemma_first_where_none(s.drop_first(), pred);
    }
}

/// The reserved placeholder name a template manifest stands under.
pub open spec fn placeholder_file_name() -> Seq<char> {
    "_Cargo.toml"@
}

/// The real manifest name the patched file is emitted under.
pub open spec fn manifest_out_name() -> Seq<char> {
    "Cargo.toml"@
}

/// A file skipped by the generic copy: its final component is the reserved
/// placeholder name.
pub open spec fn is_placeholder(v: FileView) -> bool {
    v.rel_path.len() > 0 && v.rel_path.last() == placeholder_file_name()
}

/// The template's manifest stand-in: the placeholder at the template root.
pub open spec fn is_top_placeholder(v: FileView) -> bool {
    v.rel_path == seq![placeholder_file_name()]
}

/// The files the generic copy emits, in template order.
pub open spec fn copied_files(files: Seq<FileView>) -> Seq<FileView> {
    files.filter(|v: FileView| !is_placeholder(v))
}

/// The index of the template's manifest stand-in, if any.
pub open spec fn placeholder_index(files: Seq<FileView>) -> Option<int> {
    first_where(files, |v: FileView| is_top_placeholder(v))
}

/// What `toml_edit` re-serializes after overwriting the string field
/// `table.key` of the parsed document with `value`: `None` when the bytes are
/// not UTF-8 TOML, or when the document binds `table` to something other than
/// a table, so that no such field can be patched. A function of the arguments
/// alone.
pub uninterp spec fn patched_toml(
    toml: Seq<u8>,
    table: Seq<char>,
    key: Seq<char>,
    value: Seq<char>,
) -> Option<Seq<u8>>;

/// The string under `table.key` of the parsed document, if the bytes parse
/// and such a string is there. A function of the arguments alone.
pub uninterp spec fn toml_str_field(toml: Seq<u8>, table: Seq<char>, key: Seq<char>) -> Option<
    Seq<char>,
>;

/// Relies on `toml_edit::DocumentMut::from_str`, `Table::get_mut` /
/// `Table::insert` and `Item::as_table_like_mut` to overwrite `table.key`
/// (creating the table when the document lacks it, refusing a `table` bound
/// to anything that is not table-like), and `DocumentMut::to_string` to
/// re-serialize preserving the document's formatting; the field written is
/// the field read back. All functions of the arguments alone.
#[verifier::external_body]
fn patch_toml_str_field(toml: &Vec<u8>, table: &str, key: &str, value: &str) -> (r: Result<
    Vec<u8>,
    String,
>)
    ensures
        (r matches Ok(b) ==> Some(b@) == patched_toml(toml@, table@, key@, value@)
            && toml_str_field(b@, table@, key@) == Some(value@)),
        (r is Err ==> patched_toml(toml@, table@, key@, value@) is None),
{
    let text = core::str::from_utf8(toml.as_slice()).map_err(|e| format!("{e}"))?;
    let mut doc = text.parse::<toml_edit::DocumentMut>().map_err(|e| format!("{e}"))?;
    if doc.get(table).is_none() {
        doc.insert(table, toml_edit::table());
    }
    let slot = doc.get_mut(table).and_then(|item| item.as_table_like_mut());
    slot.ok_or_else(|| format!("'{table}' is not a table"))?.insert(key, toml_edit::value(value));
    Ok(doc.to_string().into_bytes())
}

/// Relies on `toml_edit::DocumentMut::from_str`, `DocumentMut::get`,
/// `Item::get` and `Item::as_str`: reads the string under `table.key`, a
/// function of the arguments alone.
#[verifier::external_body]
fn read_toml_str_field(toml: &Vec<u8>, table: &str, key: &str) -> (r: Option<String>)
    ensures
        r.deep_view() == toml_str_field(toml@, table@, key@),
{
    let text = core::str::from_utf8(toml.as_slice()).ok()?;
    let doc = text.parse::<toml_edit::DocumentMut>().ok()?;
    doc.get(table).and_then(|t| t.get(key)).and_then(|v| v.as_str()).map(|s| s.to_owned())
}

/// The package name a manifest's `package.name` field declares.
pub fn package_name(manifest: &Vec<u8>) -> (r: Option<String>)
    ensures
        r.deep_view() == toml_str_field(manifest@, "package"@, "name"@),
{
    read_toml_str_field(manifest, "package", "name")
}

/// Whether materializing `files` with the project name `name` succeeds: the
/// manifest stand-in is present and patches cleanly.
pub open spec fn plan_ok(files: Seq<FileView>, name: Seq<char>) -> bool {
    match placeholder_index(files) {
        Some(i) => patched_toml(files[i].contents, "package"@, "name"@, name) is Some,
        None => false,
    }
}

/// The bytes of the patched manifest, when `plan_ok` holds.
pub open spec fn patched_bytes(files: Seq<FileView>, name: Seq<char>) -> Seq<u8> {
    match placeholder_index(files) {
        Some(i) => match patched_toml(files[i].contents, "package"@, "name"@, name) {
            Some(b) => b,
            None => Seq::empty(),
        },
        None => Seq::empty(),
    }
}

/// The full write set of a successful materialization: every non-placeholder
/// file verbatim at its own relative path, in template order, then the
/// patched manifest under the real manifest name.
pub open spec fn planned_writes(files: Seq<FileView>, name: Seq<char>) -> Seq<FileView> {
    copied_files(files).push(
        (FileView { rel_path: seq![manifest_out_name()], contents: patched_bytes(files, name) }),
    )
}

/// What `plan_materialization` (and the planning arm of `scaffold`) returns
/// for a template whose files are `files`, named `tname`, and a project named
/// `name`.
pub open spec fn materialize_post(
    files: Seq<FileView>,
    name: Seq<char>,
    tname: Seq<char>,
    r: Result<Vec<TemplateFile>, Error>,
) -> bool {
    &&& (r is Ok <==> plan_ok(files, name))
    &&& (r matches Ok(plan) ==> file_views(plan@) == planned_writes(files, name))
    &&& (r matches Ok(plan) ==> plan@.len() > 0 && toml_str_field(
        plan@.last()@.contents,
        "package"@,
        "name"@,
    ) == Some(name))
    &&& (placeholder_index(files) is None ==> (r matches Err(e) && e matches
        Error::TemplateMissingManifest(n) && n@ == tname))
    &&& ((placeholder_index(files) matches Some(i) && patched_toml(
        files[i].contents,
        "package"@,
        "name"@,
        name,
    ) is None) ==> (r matches Err(e) && e is TemplateManifestInvalid))
}

/// True exactly when the component is the reserved placeholder name.
fn is_placeholder_component(s: &String) -> (r: bool)
    ensures
        r == (s@ == placeholder_file_name()),
{
    let lit: String = "_Cargo.toml".to_owned();
    *s == lit
}

/// Copies a byte vector.
fn copy_bytes(src: &Vec<u8>) -> (r: Vec<u8>)
    ensures
        r@ == src@,
{
    let mut out: Vec<u8> = Vec::new();
    let mut i: usize = 0;
    while i < src.len()
        invariant
            i <= src@.len(),
            out@ == src@.take(i as int),
        decreases src@.len() - i,
    {
        out.push(src[i]);
        proof {
            assert(out@ =~= src@.take(i + 1));
        }
        i = i + 1;
    }
    proof {
        assert(src@.take(src@.len() as int) =~= src@);
    }
    out
}

/// Copies a path's components.
fn copy_path(src: &Vec<String>) -> (r: Vec<String>)
    ensures
        r.deep_view() == src.deep_view(),
{
    let mut out: Vec<String> = Vec::new();
    let mut i: usize = 0;
    while i < src.len()
        invariant
            i <= src@.len(),
            out@.len() == i,
            forall|j: int| 0 <= j < i ==> out.deep_view()[j] == src.deep_view()[j],
        decreases src@.len() - i,
    {
        out.push(src[i].clone());
        proof {
            assert(out.deep_view()[i as int] == src.deep_view()[i as int]);
        }
        i = i + 1;
    }
    proof {
        assert(out.deep_view() =~= src.deep_view());
    }
    out
}

/// Copies one template file.
fn clone_file(f: &TemplateFile) -> (r: TemplateFile)
    ensures
        r@ == f@,
{
    TemplateFile { rel_path: copy_path(&f.rel_path), contents: copy_bytes(&f.contents) }
}

/// Finds the template's manifest stand-in: the first file whose whole
/// relative path is the reserved placeholder name.
fn find_placeholder_idx(files_v: &Vec<TemplateFile>) -> (r: Option<usize>)
    ensures
        (match placeholder_index(file_views(files_v@)) {
            Some(i) => r matches Some(u) && u as int == i && i < files_v@.len(),
            None => r is None,
        }),
{
    let ghost files = file_views(files_v@);
    let n: usize = files_v.len();
    let mut ph: usize = 0;
    while ph < n
        invariant
            files == file_views(files_v@),
            n == files_v@.len(),
            ph <= n,
            forall|j: int| 0 <= j < ph ==> !is_top_placeholder(files[j]),
        decreases n - ph,
    {
        let f = &files_v[ph];
        proof {
            assert(files[ph as int] == files_v@[ph as int]@);
        }
        if f.rel_path.len() == 1 && is_placeholder_component(&f.rel_path[0]) {
            proof {
                assert(files[ph as int].rel_path =~= seq![placeholder_file_name()]);
                lemma_first_where_at(files, |v: FileView| is_top_placeholder(v), ph as int);
            }
            return Some(ph);
        }
        proof {
            assert(files[ph as int].rel_path.len() == f.rel_path@.len());
            if f.rel_path@.len() == 1 {
                assert(files[ph as int].rel_path[0] == f.rel_path@[0]@);
                assert(files[ph as int].rel_path != seq![placeholder_file_name()]) by {
                    if files[ph as int].rel_path == seq![placeholder_file_name()] {
                        assert(files[ph as int].rel_path[0] == seq![placeholder_file_name()][0]);
                    }
                }
            }
            assert(!is_top_placeholder(files[ph as int]));
        }
        ph = ph + 1;
    }
    proof {
        lemma_first_where_none(files, |v: FileView| is_top_placeholder(v));
    }
    None
}

/// Plans the materialization of one template: the generic copy of every file
/// except placeholder-named ones, then the manifest stand-in parsed, its
/// package name overwritten with the project name, and re-emitted under the
/// real manifest name, where it reads back as exactly the project name. A
/// missing stand-in and an unpatchable stand-in are fatal; nothing is
/// written by this function.
pub fn plan_materialization(t: &Template, project_name: &String) -> (r: Result<
    Vec<TemplateFile>,
    Error,
>)
    ensures
        materialize_post(file_views(t.files@), project_name@, t.name@, r),
{
    let ghost files = file_views(t.files@);
    let n: usize = t.files.len();

    // Find the manifest stand-in at the template root.
    let ph: usize = match find_placeholder_idx(&t.files) {
        Some(u) => u,
        None => {
            return Err(Error::TemplateMissingManifest(t.name.clone()));
        },
    };
    proof {
        assert(files[ph as int] == t.files@[ph as int]@);
    }

    // Patch its package name.
    let patched = match patch_toml_str_field(
        &t.files[ph].contents,
        "package",
        "name",
        project_name.as_str(),
    ) {
        Ok(bytes) => bytes,
        Err(msg) => {
            return Err(Error::TemplateManifestInvalid(msg));
        },
    };

    // The generic copy: every file except placeholder-named ones.
    let mut plan: Vec<TemplateFile> = Vec::new();
    let mut i: usize = 0;
    while i < n
        invariant
            files == file_views(t.files@),
            n == t.files@.len(),
            i <= n,
            file_views(plan@) =~= copied_files(files.take(i as int)),
        decreases n - i,
    {
        let f = &t.files[i];
        let last: usize = f.rel_path.len();
        let skip = last > 0 && is_placeholder_component(&f.rel_path[last - 1]);
        proof {
            assert(files[i as int] == t.files@[i as int]@);
            assert(skip == is_placeholder(files[i as int]));
        }
        if !skip {
            plan.push(clone_file(f));
        }
        proof {
            reveal(Seq::filter);
            assert(files.take(i + 1).drop_last() =~= files.take(i as int));
            assert(files.take(i + 1).last() == files[i as int]);
            assert(file_views(plan@) =~= copied_files(files.take(i + 1)));
        }
        i = i + 1;
    }

    // The manifest itself, under its real name.
    let mut out_path: Vec<String> = Vec::new();
    out_path.push("Cargo.toml".to_owned());
    proof {
        assert(out_path.deep_view() =~= seq![manifest_out_name()]);
        assert(files.take(n as int) =~= files);
    }
    plan.push(TemplateFile { rel_path: out_path, contents: patched });
    proof {
        assert(plan@.last()@ == (FileView {
            rel_path: seq![manifest_out_name()],
            contents: patched_bytes(files, project_name@),
        }));
        assert(file_views(plan@) =~= planned_writes(files, project_name@));
    }
    Ok(plan)
}

/// The names of the bundle's templates, in bundle order.
pub open spec fn template_names(ts: Seq<Template>) -> Seq<Seq<char>> {
    ts.map_values(|t: Template| t.name@)
}

/// The index of the first template called `name`, if any.
pub open spec fn template_index(ts: Seq<Template>, name: Seq<char>) -> Option<int> {
    first_where(ts, |t: Template| t.name@ == name)
}

/// Resolves the named template out of the bundle; an absent name is fatal,
/// and the error carries every name actually present.
pub fn resolve_template<'a>(templates: &'a Vec<Template>, name: &String) -> (r: Result<
    &'a Template,
    Error,
>)
    ensures
        (template_index(templates@, name@) matches Some(i) ==> r matches Ok(t) && *t
            == templates@[i]),
        (template_index(templates@, name@) is None ==> (r matches Err(e) && e matches
            Error::UnknownTemplate { requested, available } && requested@ == name@
            && available.deep_view() == template_names(templates@))),
{
    let n: usize = templates.len();
    let mut i: usize = 0;
    while i < n
        invariant
            n == templates@.len(),
            i <= n,
            forall|j: int| 0 <= j < i ==> templates@[j].name@ != name@,
        decreases n - i,
    {
        if templates[i].name == *name {
            proof {
                lemma_first_where_at(templates@, |t: Template| t.name@ == name@, i as int);
            }
            return Ok(&templates[i]);
        }
        i = i + 1;
    }
    proof {
        lemma_first_where_none(templates@, |t: Template| t.name@ == name@);
    }
    let mut available: Vec<String> = Vec::new();
    let mut j: usize = 0;
    while j < n
        invariant
            n == templates@.len(),
            j <= n,
            available@.len() == j,
            forall|k: int| 0 <= k < j ==> available.deep_view()[k] == templates@[k].name@,
        decreases n - j,
    {
        let ghost prev = available.deep_view();
        available.push(templates[j].name.clone());
        proof {
            assert forall|k: int| 0 <= k < j implies available.deep_view()[k] == templates@[k].name@ by {
                assert(available.deep_view()[k] == prev[k]);
            }
            assert(available.deep_view()[j as int] == templates@[j as int].name@);
        }
        j = j + 1;
    }
    proof {
        assert(available.deep_view() =~= template_names(templates@));
    }
    Err(Error::UnknownTemplate { requested: name.clone(), available })
}

/// The whole scaffolding decision: resolve the template (an unknown name is
/// fatal and enumerates the bundle), refuse an already-existing target
/// directory before anything is written, and plan the materialization.
pub fn scaffold(
    templates: &Vec<Template>,
    template_name: &String,
    project_name: &String,
    target_dir: &String,
    target_exists: bool,
) -> (r: Result<Vec<TemplateFile>, Error>)
    ensures
        (template_index(templates@, template_name@) is None ==> (r matches Err(e) && e matches
            Error::UnknownTemplate { requested, available } && requested@ == template_name@
            && available.deep_view() == template_names(templates@))),
        (template_index(templates@, template_name@) matches Some(i) ==> (if target_exists {
            r matches Err(e) && e matches Error::TargetExists(p) && p@ == target_dir@
        } else {
            materialize_post(
                file_views(templates@[i].files@),
                project_name@,
                templates@[i].name@,
                r,
            )
        })),
{
    let t = match resolve_template(templates, template_name) {
        Ok(t) => t,
        Err(e) => {
            return Err(e);
        },
    };
    if target_exists {
        return Err(Error::TargetExists(target_dir.clone()));
    }
    plan_materialization(t, project_name)
}

} // verus!
