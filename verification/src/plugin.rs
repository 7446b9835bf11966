//! The plugin aggregate and its lifecycle: a packaged archive is opened,
//! its manifest read and validated, its module bound into the process, and
//! its exports resolved — each stage gated on the state the previous stages
//! established.
//!
//! Filesystem work and the foreign binding itself cannot happen here: the
//! host performs them, guided by the plans and guards this module computes.
//! A resolved hook is a raw function pointer whose declared signature is
//! trusted, never checked: a mismatch is undefined behavior at the boundary
//! and remains the caller's obligation.

use vstd::prelude::*;
use vstd::string::*;
use vstd::slice::slice_to_vec;
use vstd::utf8::decode_utf8;
use vstd::utf8::valid_utf8;
use std::io::Read;

use crate::error::VPluginError;
use crate::manifest::PluginMetadata;
use crate::manifest::ident_ok;
use crate::manifest::manifest_file_name;
use crate::manifest::manifest_name;
use crate::manifest::manifest_state;
use crate::manifest::manifest_wf;
use crate::manifest::metadata_matches;
use crate::manifest::str_chars;
use crate::manifest::valid_ident;
use crate::paths::join_path;
use crate::paths::join_spec;
use crate::paths::lemma_join_confines;
use crate::paths::entry_name_safe;
use crate::paths::safe_entry_name;
use crate::paths::stays_under;

verus! {

// ---------------------------------------------------------------------------
// The outside types the loader holds, declared opaquely.
// ---------------------------------------------------------------------------

/// Relies on `zip::ZipArchive` as an opaque handle on a parsed package; its
/// contents are reached only through the functions below.
#[verifier::external_type_specification]
#[verifier::external_body]
#[verifier::reject_recursive_types(R)]
pub struct ExZipArchive<R>(zip::ZipArchive<R>);

/// Relies on `std::io::Cursor` as an opaque in-memory reader.
#[verifier::external_type_specification]
#[verifier::external_body]
#[verifier::reject_recursive_types(T)]
pub struct ExCursor<T>(std::io::Cursor<T>);

/// Relies on `libloading::Library` as an opaque handle on a module bound
/// into the process; the loader only holds and releases it, and the host
/// resolves symbols from it.
#[verifier::external_type_specification]
#[verifier::external_body]
pub struct ExLibrary(libloading::Library);

/// Whether `zip::ZipArchive::new` accepts the package held in these bytes.
pub uninterp spec fn zip_parses(data: Seq<u8>) -> bool;

/// The entries — stored name and decompressed contents, in archive order —
/// of the package held in these bytes.
pub uninterp spec fn zip_entries_of(data: Seq<u8>) -> Seq<(Seq<char>, Seq<u8>)>;

/// The entries that an opened archive hands out.
pub uninterp spec fn archive_entries(a: zip::ZipArchive<std::io::Cursor<Vec<u8>>>) -> Seq<
    (Seq<char>, Seq<u8>),
>;

/// The package bytes that an opened archive was parsed from.
pub uninterp spec fn archive_bytes(a: zip::ZipArchive<std::io::Cursor<Vec<u8>>>) -> Seq<u8>;

/// Whether reading entry `i` of the package held in these bytes succeeds.
/// Decompressing and checksumming fixed bytes is deterministic, so this is
/// a function of the package alone.
pub uninterp spec fn entry_readable(data: Seq<u8>, i: int) -> bool;

/// Whether looking up `name` in the package held in these bytes and reading
/// the found entry succeeds; a function of the package and the name alone.
pub uninterp spec fn named_readable(data: Seq<u8>, name: Seq<char>) -> bool;

/// Some entry of `es` is stored under `name`.
pub open spec fn entry_named(es: Seq<(Seq<char>, Seq<u8>)>, name: Seq<char>) -> bool {
    exists|i: int| 0 <= i < es.len() && es[i].0 == name
}

/// Some entry of `es` is stored under `name` and holds `data`.
pub open spec fn entry_with(es: Seq<(Seq<char>, Seq<u8>)>, name: Seq<char>, data: Seq<u8>) -> bool {
    exists|i: int| 0 <= i < es.len() && es[i].0 == name && es[i].1 == data
}

// ---------------------------------------------------------------------------
// The trusted boundary to the outside crates.
// ---------------------------------------------------------------------------

/// Relies on `zip::ZipArchive::new` over an in-memory cursor: it accepts a
/// package exactly when its central directory parses, and the opened archive
/// then hands out that package's entries.
#[verifier::external_body]
fn open_archive(data: Vec<u8>) -> (r: Result<
    zip::ZipArchive<std::io::Cursor<Vec<u8>>>,
    VPluginError,
>)
    ensures
        r is Ok <==> zip_parses(data@),
        r matches Ok(a) ==> archive_entries(a) == zip_entries_of(data@),
        r matches Ok(a) ==> archive_bytes(a) == data@,
        r matches Err(e) ==> e matches VPluginError::InternalError(_),
{
    match zip::ZipArchive::new(std::io::Cursor::new(data)) {
        Ok(a) => Ok(a),
        Err(_) => Err(
            VPluginError::InternalError(String::from("corrupted or unsupported archive")),
        ),
    }
}

/// Relies on `zip::ZipArchive::len`: the number of entries in the package.
#[verifier::external_body]
fn archive_len(a: &zip::ZipArchive<std::io::Cursor<Vec<u8>>>) -> (r: usize)
    ensures
        r == archive_entries(*a).len(),
{
    a.len()
}

/// Relies on `zip::ZipArchive::by_index` and `std::io::Read::read_to_end`:
/// entry `i` of the package, as its stored name and decompressed bytes. The
/// in-between `ZipFile` borrows the archive, so the lookup and the read must
/// share this one body.
#[verifier::external_body]
fn archive_entry(a: &mut zip::ZipArchive<std::io::Cursor<Vec<u8>>>, i: usize) -> (r: Result<
    (String, Vec<u8>),
    VPluginError,
>)
    requires
        i < archive_entries(*old(a)).len(),
    ensures
        archive_entries(*final(a)) == archive_entries(*old(a)),
        archive_bytes(*final(a)) == archive_bytes(*old(a)),
        r is Ok <==> entry_readable(archive_bytes(*old(a)), i as int),
        r matches Ok(e) ==> archive_entries(*old(a))[i as int] == (e.0@, e.1@),
        r matches Err(x) ==> x matches VPluginError::InternalError(_),
{
    match a.by_index(i) {
        Ok(mut f) => {
            let name = f.name().to_string();
            let mut data = Vec::new();
            match f.read_to_end(&mut data) {
                Ok(_) => Ok((name, data)),
                Err(_) => Err(
                    VPluginError::InternalError(String::from("could not read an archive entry")),
                ),
            }
        },
        Err(_) => Err(
            VPluginError::InternalError(String::from("could not open an archive entry")),
        ),
    }
}

/// Relies on `zip::ZipArchive::by_name` and `std::io::Read::read_to_end`: it
/// finds the entry stored under exactly `name` — reporting `FileNotFound`,
/// mapped to `NoSuchFile`, precisely when there is none — and hands out its
/// decompressed bytes. `by_name` keys its lookup on the raw stored bytes of
/// a name while the entries' names here are the decoded ones; the two views
/// coincide only for ASCII names, so only those are admitted.
#[verifier::external_body]
fn archive_read_file(a: &mut zip::ZipArchive<std::io::Cursor<Vec<u8>>>, name: &str) -> (r: Result<
    Vec<u8>,
    VPluginError,
>)
    requires
        is_ascii(name),
    ensures
        archive_entries(*final(a)) == archive_entries(*old(a)),
        archive_bytes(*final(a)) == archive_bytes(*old(a)),
        r is Ok <==> (entry_named(archive_entries(*old(a)), name@) && named_readable(
            archive_bytes(*old(a)),
            name@,
        )),
        r matches Ok(d) ==> entry_with(archive_entries(*old(a)), name@, d@),
        (r matches Err(e) && e == VPluginError::NoSuchFile) <==> !entry_named(
            archive_entries(*old(a)),
            name@,
        ),
        r matches Err(e) ==> (e == VPluginError::NoSuchFile || e matches VPluginError::InternalError(
            _,
        )),
{
    match a.by_name(name) {
        Ok(mut f) => {
            let mut data = Vec::new();
            match f.read_to_end(&mut data) {
                Ok(_) => Ok(data),
                Err(_) => Err(
                    VPluginError::InternalError(String::from("could not read an archive entry")),
                ),
            }
        },
        Err(zip::result::ZipError::FileNotFound) => Err(VPluginError::NoSuchFile),
        Err(_) => Err(
            VPluginError::InternalError(String::from("could not open an archive entry")),
        ),
    }
}

/// Relies on `core::str::from_utf8`: it succeeds exactly on valid UTF-8 and
/// yields its decoding.
#[verifier::external_body]
fn utf8_to_string(bytes: &Vec<u8>) -> (r: Option<String>)
    ensures
        r is Some <==> valid_utf8(bytes@),
        r matches Some(s) ==> s@ == decode_utf8(bytes@),
{
    match core::str::from_utf8(bytes.as_slice()) {
        Ok(s) => Some(s.to_string()),
        Err(_) => None,
    }
}

// ---------------------------------------------------------------------------
// Extraction planning.
// ---------------------------------------------------------------------------

/// One filesystem step of materializing a package under the staging root.
/// The host performs these in order; for a file it creates missing parent
/// directories first.
pub enum ExtractAction {
    /// Create the directory at the held path.
    MakeDir(String),
    /// Create the file at the held path, with the held bytes as contents.
    WriteFile(String, Vec<u8>),
}

/// An action as a plain triple: is-directory, path, contents.
pub open spec fn action_view(a: ExtractAction) -> (bool, Seq<char>, Seq<u8>) {
    match a {
        ExtractAction::MakeDir(p) => (true, p@, Seq::<u8>::empty()),
        ExtractAction::WriteFile(p, d) => (false, p@, d@),
    }
}

/// The extraction plan for the given entries: each safely named entry lands
/// under the root — directories are those whose stored name ends in `/` —
/// and an entry whose name could escape the root is left out.
pub open spec fn plan_spec(root: Seq<char>, es: Seq<(Seq<char>, Seq<u8>)>) -> Seq<
    (bool, Seq<char>, Seq<u8>),
>
    decreases es.len(),
{
    if es.len() == 0 {
        Seq::empty()
    } else {
        let prev = plan_spec(root, es.drop_last());
        let e = es.last();
        if !safe_entry_name(e.0) {
            prev
        } else if e.0.last() == '/' {
            prev.push((true, join_spec(root, e.0), Seq::<u8>::empty()))
        } else {
            prev.push((false, join_spec(root, e.0), e.1))
        }
    }
}

/// Every path of an extraction plan stays under the staging root: the
/// zip-slip guarantee.
pub proof fn lemma_plan_confined(root: Seq<char>, es: Seq<(Seq<char>, Seq<u8>)>)
    ensures
        forall|j: int|
            0 <= j < plan_spec(root, es).len() ==> stays_under(
                root,
                (#[trigger] plan_spec(root, es)[j]).1,
            ),
    decreases es.len(),
{
    if es.len() > 0 {
        lemma_plan_confined(root, es.drop_last());
        let e = es.last();
        let prev = plan_spec(root, es.drop_last());
        let cur = plan_spec(root, es);
        if safe_entry_name(e.0) {
            lemma_join_confines(root, e.0);
        }
        assert forall|j: int| 0 <= j < cur.len() implies stays_under(root, cur[j].1) by {
            if j < prev.len() {
                assert(cur[j] == prev[j]);
                assert(stays_under(root, (plan_spec(root, es.drop_last())[j]).1));
            } else {
                assert(safe_entry_name(e.0));
                assert(cur[j].1 == join_spec(root, e.0));
            }
        }
    }
}

// ---------------------------------------------------------------------------
// The plugin aggregate.
// ---------------------------------------------------------------------------

/// What the host observed when it ran a plugin's destructor export.
#[derive(Debug, Clone, Copy, PartialEq, Eq, Structural)]
pub enum DestructorOutcome {
    /// The destructor export was present and was invoked.
    Invoked,
    /// The bound module has no destructor export.
    Missing,
}

/// The plugin's user-visible state: everything but the retained archive
/// handle and the termination mode.
pub open spec fn visible_state_unchanged(a: Plugin, b: Plugin) -> bool {
    &&& a.metadata == b.metadata
    &&& a.filename == b.filename
    &&& a.is_valid == b.is_valid
    &&& a.started == b.started
    &&& a.raw == b.raw
}

/// A manifest text is accepted when it decodes, follows the grammar, and
/// declares an acceptable identity.
pub open spec fn manifest_accepted(b: Seq<u8>) -> bool {
    &&& valid_utf8(b)
    &&& manifest_wf(decode_utf8(b))
    &&& valid_ident(manifest_name(decode_utf8(b)))
}

/// The plugin type: one loaded (or loading) plugin. New plugins should be
/// obtained through [`Plugin::load`] and not be reused explicitly.
#[derive(Debug)]
pub struct Plugin {
    /// Metadata about the plugin; `None` until the manifest stage completes.
    pub metadata: Option<PluginMetadata>,
    /// The path the package was loaded from, as the host named it.
    pub filename: String,
    /// Binding succeeded: the module is live in the process.
    pub is_valid: bool,
    /// The host has signaled active use; hooks resolve only while started.
    pub started: bool,
    /// The live in-process binding; its presence is the source of truth for
    /// whether this plugin is usable.
    pub raw: Option<libloading::Library>,
    /// Read access to the original package's entries.
    pub archive: zip::ZipArchive<std::io::Cursor<Vec<u8>>>,
    /// Under the default configuration a terminated plugin stays bound and
    /// may be restarted; when not reusable, termination fully resets it.
    pub reusable: bool,
}

impl Plugin {
    /// The lifecycle invariant: started implies valid, valid implies bound,
    /// and a loaded identity is always acceptable.
    pub open spec fn wf(self) -> bool {
        &&& self.started ==> self.is_valid
        &&& self.is_valid ==> self.raw is Some
        &&& (self.metadata matches Some(m) ==> valid_ident(m.name@))
    }

    /// Opens a package held in memory. The result is an extracted-stage
    /// plugin: the archive handle is retained, no metadata or module yet.
    pub fn load_archive(data: Vec<u8>, filename: String) -> (r: Result<Plugin, VPluginError>)
        ensures
            r is Ok <==> zip_parses(data@),
            r matches Ok(p) ==> ({
                &&& archive_entries(p.archive) == zip_entries_of(data@)
                &&& archive_bytes(p.archive) == data@
                &&& p.metadata is None
                &&& p.filename == filename
                &&& !p.is_valid
                &&& !p.started
                &&& p.raw is None
                &&& p.reusable
                &&& p.wf()
            }),
            r matches Err(e) ==> e matches VPluginError::InternalError(_),
    {
        let archive = match open_archive(data) {
            Ok(a) => a,
            Err(e) => {
                return Err(e);
            },
        };
        Ok(
            Plugin {
                metadata: None,
                filename,
                is_valid: false,
                started: false,
                raw: None,
                archive,
                reusable: true,
            },
        )
    }

    /// Validates a manifest text and records its metadata: the identity must
    /// be non-empty and space-free, or the plugin is rejected with
    /// `InvalidPlugin`; text outside the grammar is `ParametersError`.
    pub fn apply_manifest(&mut self, bytes: &Vec<u8>) -> (r: Result<(), VPluginError>)
        ensures
            final(self).filename == old(self).filename,
            final(self).is_valid == old(self).is_valid,
            final(self).started == old(self).started,
            final(self).raw == old(self).raw,
            final(self).archive == old(self).archive,
            final(self).reusable == old(self).reusable,
            r is Ok <==> manifest_accepted(bytes@),
            r matches Ok(_) ==> (final(self).metadata matches Some(m) && metadata_matches(
                m,
                manifest_state(decode_utf8(bytes@))->0,
            ) && valid_ident(m.name@)),
            r is Err ==> final(self).metadata == old(self).metadata,
            !valid_utf8(bytes@) ==> r == Err::<(), VPluginError>(VPluginError::ParametersError),
            valid_utf8(bytes@) && !manifest_wf(decode_utf8(bytes@)) ==> r == Err::<(), VPluginError>(
                VPluginError::ParametersError,
            ),
            valid_utf8(bytes@) && manifest_wf(decode_utf8(bytes@)) && !valid_ident(
                manifest_name(decode_utf8(bytes@)),
            ) ==> r == Err::<(), VPluginError>(VPluginError::InvalidPlugin),
            old(self).wf() ==> final(self).wf(),
    {
        let text = match utf8_to_string(bytes) {
            Some(t) => t,
            None => {
                return Err(VPluginError::ParametersError);
            },
        };
        let meta = match PluginMetadata::read_from_str(text.as_str()) {
            Ok(m) => m,
            Err(_) => {
                return Err(VPluginError::ParametersError);
            },
        };
        if !ident_ok(meta.name.as_str()) {
            return Err(VPluginError::InvalidPlugin);
        }
        self.metadata = Some(meta);
        Ok(())
    }

    /// Reads the well-known manifest entry out of the retained archive and
    /// applies it. Absence of the manifest entry is `NoSuchFile`; no binding
    /// is attempted here in any case.
    pub fn load_metadata(&mut self) -> (r: Result<(), VPluginError>)
        ensures
            archive_entries(final(self).archive) == archive_entries(old(self).archive),
            archive_bytes(final(self).archive) == archive_bytes(old(self).archive),
            final(self).filename == old(self).filename,
            final(self).is_valid == old(self).is_valid,
            final(self).started == old(self).started,
            final(self).raw == old(self).raw,
            final(self).reusable == old(self).reusable,
            r is Err ==> final(self).metadata == old(self).metadata,
            !entry_named(archive_entries(old(self).archive), manifest_file_name()) <==> r
                == Err::<(), VPluginError>(VPluginError::NoSuchFile),
            (entry_named(archive_entries(old(self).archive), manifest_file_name())
                && named_readable(archive_bytes(old(self).archive), manifest_file_name()) && (
            forall|d: Seq<u8>|
                entry_with(archive_entries(old(self).archive), manifest_file_name(), d)
                    ==> manifest_accepted(d))) ==> r is Ok,
            (entry_named(archive_entries(old(self).archive), manifest_file_name())
                && named_readable(archive_bytes(old(self).archive), manifest_file_name()) && (
            forall|d: Seq<u8>|
                entry_with(archive_entries(old(self).archive), manifest_file_name(), d) ==> (
                !valid_utf8(d) || !manifest_wf(decode_utf8(d))))) ==> r == Err::<(), VPluginError>(
                VPluginError::ParametersError,
            ),
            (entry_named(archive_entries(old(self).archive), manifest_file_name())
                && named_readable(archive_bytes(old(self).archive), manifest_file_name()) && (
            forall|d: Seq<u8>|
                entry_with(archive_entries(old(self).archive), manifest_file_name(), d) ==> (
                valid_utf8(d) && manifest_wf(decode_utf8(d)) && !valid_ident(
                    manifest_name(decode_utf8(d)),
                )))) ==> r == Err::<(), VPluginError>(VPluginError::InvalidPlugin),
            r is Ok ==> (entry_named(archive_entries(old(self).archive), manifest_file_name())
                && named_readable(archive_bytes(old(self).archive), manifest_file_name())),
            r is Ok ==> (exists|d: Seq<u8>|
                entry_with(archive_entries(old(self).archive), manifest_file_name(), d)
                    && manifest_accepted(d) && (final(self).metadata matches Some(m)
                    && metadata_matches(m, manifest_state(decode_utf8(d))->0))),
            r matches Ok(_) ==> (final(self).metadata matches Some(m) && valid_ident(m.name@)),
            (r matches Err(e) && e == VPluginError::ParametersError) ==> (exists|d: Seq<u8>|
                entry_with(archive_entries(old(self).archive), manifest_file_name(), d) && (
                !valid_utf8(d) || !manifest_wf(decode_utf8(d)))),
            (r matches Err(e) && e == VPluginError::InvalidPlugin) ==> (exists|d: Seq<u8>|
                entry_with(archive_entries(old(self).archive), manifest_file_name(), d)
                    && valid_utf8(d) && manifest_wf(decode_utf8(d)) && !valid_ident(
                    manifest_name(decode_utf8(d)),
                )),
            r matches Err(e) ==> (e == VPluginError::NoSuchFile || e == VPluginError::ParametersError
                || e == VPluginError::InvalidPlugin || e matches VPluginError::InternalError(_)),
            old(self).wf() ==> final(self).wf(),
    {
        proof {
            reveal_strlit("metadata.toml");
            assert(is_ascii("metadata.toml"));
        }
        let data = match archive_read_file(&mut self.archive, "metadata.toml") {
            Ok(d) => d,
            Err(e) => {
                return Err(e);
            },
        };
        self.apply_manifest(&data)
    }

    /// Loads a plugin from a package held in memory: opens the archive and
    /// loads its metadata. The result is ready for extraction and binding.
    pub fn load(data: Vec<u8>, filename: String) -> (r: Result<Plugin, VPluginError>)
        ensures
            r matches Ok(p) ==> ({
                &&& zip_parses(data@)
                &&& archive_entries(p.archive) == zip_entries_of(data@)
                &&& archive_bytes(p.archive) == data@
                &&& p.filename == filename
                &&& !p.is_valid
                &&& !p.started
                &&& p.raw is None
                &&& p.reusable
                &&& p.metadata matches Some(m) && valid_ident(m.name@) && (exists|d: Seq<u8>|
                    entry_with(zip_entries_of(data@), manifest_file_name(), d)
                        && manifest_accepted(d) && metadata_matches(
                        m,
                        manifest_state(decode_utf8(d))->0,
                    ))
                &&& p.wf()
            }),
            (zip_parses(data@) && entry_named(zip_entries_of(data@), manifest_file_name())
                && named_readable(data@, manifest_file_name()) && (forall|d: Seq<u8>|
                entry_with(zip_entries_of(data@), manifest_file_name(), d) ==> manifest_accepted(
                    d,
                ))) ==> r is Ok,
            !zip_parses(data@) ==> (r matches Err(e) && e matches VPluginError::InternalError(_)),
            zip_parses(data@) && !entry_named(zip_entries_of(data@), manifest_file_name()) ==> r
                == Err::<Plugin, VPluginError>(VPluginError::NoSuchFile),
            (zip_parses(data@) && entry_named(zip_entries_of(data@), manifest_file_name())
                && named_readable(data@, manifest_file_name()) && (forall|d: Seq<u8>|
                entry_with(zip_entries_of(data@), manifest_file_name(), d) ==> (!valid_utf8(d)
                    || !manifest_wf(decode_utf8(d))))) ==> r == Err::<Plugin, VPluginError>(
                VPluginError::ParametersError,
            ),
            (zip_parses(data@) && entry_named(zip_entries_of(data@), manifest_file_name())
                && named_readable(data@, manifest_file_name()) && (forall|d: Seq<u8>|
                entry_with(zip_entries_of(data@), manifest_file_name(), d) ==> (valid_utf8(d)
                    && manifest_wf(decode_utf8(d)) && !valid_ident(
                    manifest_name(decode_utf8(d)),
                )))) ==> r == Err::<Plugin, VPluginError>(VPluginError::InvalidPlugin),
            r matches Err(e) ==> (e == VPluginError::NoSuchFile || e == VPluginError::ParametersError
                || e == VPluginError::InvalidPlugin || e matches VPluginError::InternalError(_)),
    {
        let mut plugin = match Self::load_archive(data, filename) {
            Ok(p) => p,
            Err(e) => {
                return Err(e);
            },
        };
        match plugin.load_metadata() {
            Ok(_) => Ok(plugin),
            Err(e) => Err(e),
        }
    }

    /// The extraction plan for the retained package: every safely named
    /// entry as a directory or file action under `staging_root`.
    pub fn extraction_actions(&mut self, staging_root: &str) -> (r: Result<
        Vec<ExtractAction>,
        VPluginError,
    >)
        ensures
            archive_entries(final(self).archive) == archive_entries(old(self).archive),
            final(self).metadata == old(self).metadata,
            final(self).filename == old(self).filename,
            final(self).is_valid == old(self).is_valid,
            final(self).started == old(self).started,
            final(self).raw == old(self).raw,
            final(self).reusable == old(self).reusable,
            archive_bytes(final(self).archive) == archive_bytes(old(self).archive),
            r is Ok <==> (forall|j: int|
                0 <= j < archive_entries(old(self).archive).len() ==> entry_readable(
                    archive_bytes(old(self).archive),
                    j,
                )),
            r matches Ok(acts) ==> acts@.map_values(|a: ExtractAction| action_view(a)) == plan_spec(
                staging_root@,
                archive_entries(old(self).archive),
            ),
            r matches Err(e) ==> e matches VPluginError::InternalError(_),
    {
        let ghost es = archive_entries(self.archive);
        let ghost bs = archive_bytes(self.archive);
        let n = archive_len(&self.archive);
        let mut acts: Vec<ExtractAction> = Vec::new();
        let mut i: usize = 0;
        while i < n
            invariant
                i <= n,
                n == es.len(),
                es == archive_entries(old(self).archive),
                bs == archive_bytes(old(self).archive),
                archive_entries(self.archive) == es,
                archive_bytes(self.archive) == bs,
                forall|j: int| 0 <= j < i ==> entry_readable(bs, j),
                self.metadata == old(self).metadata,
                self.filename == old(self).filename,
                self.is_valid == old(self).is_valid,
                self.started == old(self).started,
                self.raw == old(self).raw,
                self.reusable == old(self).reusable,
                acts@.map_values(|a: ExtractAction| action_view(a)) == plan_spec(
                    staging_root@,
                    es.take(i as int),
                ),
            decreases n - i,
        {
            let ghost prev_view = acts@.map_values(|a: ExtractAction| action_view(a));
            let entry = match archive_entry(&mut self.archive, i) {
                Ok(e) => e,
                Err(e) => {
                    proof {
                        assert(!entry_readable(bs, i as int));
                    }
                    return Err(e);
                },
            };
            let (entry_name, entry_data) = entry;
            let nv = str_chars(entry_name.as_str());
            proof {
                assert(es.take((i + 1) as int).drop_last() =~= es.take(i as int));
                assert(es.take((i + 1) as int).last() == es[i as int]);
            }
            if entry_name_safe(&nv) {
                let path = join_path(staging_root, entry_name.as_str());
                if nv[nv.len() - 1] == '/' {
                    acts.push(ExtractAction::MakeDir(path));
                } else {
                    acts.push(ExtractAction::WriteFile(path, entry_data));
                }
                proof {
                    assert(acts@.map_values(|a: ExtractAction| action_view(a)) =~= prev_view.push(
                        action_view(acts@.last()),
                    ));
                }
            }
            i = i + 1;
        }
        proof {
            assert(es.take(n as int) =~= es);
        }
        Ok(acts)
    }

    /// Records a module the host bound for this plugin: the plugin becomes
    /// valid. The host must bind the module file that
    /// [`Plugin::module_paths`] names.
    pub fn attach_module(&mut self, module: libloading::Library)
        requires
            old(self).metadata is Some,
        ensures
            final(self).metadata == old(self).metadata,
            final(self).filename == old(self).filename,
            final(self).started == old(self).started,
            final(self).archive == old(self).archive,
            final(self).reusable == old(self).reusable,
            final(self).raw is Some,
            final(self).is_valid,
            old(self).wf() ==> final(self).wf(),
    {
        self.raw = Some(module);
        self.is_valid = true;
    }

    /// The start signal, driven by the host's registry after it invoked the
    /// plugin's entry point on its own: only a valid plugin can be started.
    pub fn start(&mut self) -> (r: Result<(), VPluginError>)
        ensures
            final(self).metadata == old(self).metadata,
            final(self).filename == old(self).filename,
            final(self).is_valid == old(self).is_valid,
            final(self).raw == old(self).raw,
            final(self).archive == old(self).archive,
            final(self).reusable == old(self).reusable,
            old(self).is_valid ==> r is Ok && final(self).started,
            !old(self).is_valid ==> r == Err::<(), VPluginError>(VPluginError::InvalidPlugin)
                && final(self).started == old(self).started,
            old(self).wf() ==> final(self).wf(),
    {
        if !self.is_valid {
            return Err(VPluginError::InvalidPlugin);
        }
        self.started = true;
        Ok(())
    }

    /// The guarded symbol bytes for a hook lookup: the held name, as bytes
    /// with a terminating NUL, but only while the plugin is started, valid
    /// and bound — otherwise `InvalidPlugin`, regardless of the module.
    pub fn hook_symbol(&self, fn_name: &str) -> (r: Result<Vec<u8>, VPluginError>)
        ensures
            r is Ok <==> (self.started && self.is_valid && self.raw is Some),
            r matches Ok(v) ==> v@ == fn_name.spec_bytes().push(0u8),
            r matches Err(e) ==> e == VPluginError::InvalidPlugin,
    {
        if !self.started || !self.is_valid || self.raw.is_none() {
            return Err(VPluginError::InvalidPlugin);
        }
        let mut v = slice_to_vec(fn_name.as_bytes());
        v.push(0u8);
        Ok(v)
    }

    /// The symbol bytes for an availability probe. There is no lifecycle
    /// gate, but an unbound plugin has nothing to probe: `None`, never an
    /// error, and the host reports the export as unavailable.
    pub fn probe_symbol(&self, name: &str) -> (r: Option<Vec<u8>>)
        ensures
            r is Some <==> self.raw is Some,
            r matches Some(v) ==> v@ == name.spec_bytes(),
    {
        if self.raw.is_some() {
            Some(slice_to_vec(name.as_bytes()))
        } else {
            None
        }
    }

    /// The guarded symbol bytes of the well-known destructor export: only a
    /// bound and started plugin may be terminated.
    pub fn destructor_symbol(&self) -> (r: Result<Vec<u8>, VPluginError>)
        ensures
            r is Ok <==> (self.raw is Some && self.started),
            r matches Ok(v) ==> v@ == "vplugin_exit".spec_bytes().push(0u8),
            r matches Err(e) ==> e == VPluginError::InvalidPlugin,
    {
        if self.raw.is_none() {
            return Err(VPluginError::InvalidPlugin);
        }
        if !self.started {
            return Err(VPluginError::InvalidPlugin);
        }
        let mut v = slice_to_vec("vplugin_exit".as_bytes());
        v.push(0u8);
        Ok(v)
    }

    /// Settles a termination attempt. A plugin that is not bound and started
    /// is `InvalidPlugin`, untouched. A missing destructor is `InvalidPlugin`
    /// too, and the user-visible state does not change. After a destructor
    /// ran, the plugin is stopped; when not reusable it is fully reset.
    pub fn terminate(&mut self, outcome: DestructorOutcome) -> (r: Result<(), VPluginError>)
        ensures
            final(self).archive == old(self).archive,
            final(self).reusable == old(self).reusable,
            !(old(self).raw is Some && old(self).started) ==> ({
                &&& r == Err::<(), VPluginError>(VPluginError::InvalidPlugin)
                &&& visible_state_unchanged(*old(self), *final(self))
            }),
            (old(self).raw is Some && old(self).started && outcome == DestructorOutcome::Missing)
                ==> ({
                &&& r == Err::<(), VPluginError>(VPluginError::InvalidPlugin)
                &&& visible_state_unchanged(*old(self), *final(self))
            }),
            (old(self).raw is Some && old(self).started && outcome == DestructorOutcome::Invoked)
                ==> ({
                &&& r is Ok
                &&& !final(self).started
                &&& old(self).reusable ==> ({
                    &&& final(self).is_valid == old(self).is_valid
                    &&& final(self).raw == old(self).raw
                    &&& final(self).metadata == old(self).metadata
                    &&& final(self).filename == old(self).filename
                })
                &&& !old(self).reusable ==> ({
                    &&& !final(self).is_valid
                    &&& final(self).raw is None
                    &&& final(self).metadata is None
                    &&& final(self).filename@ == Seq::<char>::empty()
                })
            }),
            old(self).wf() ==> final(self).wf(),
    {
        if self.raw.is_none() {
            return Err(VPluginError::InvalidPlugin);
        }
        if !self.started {
            return Err(VPluginError::InvalidPlugin);
        }
        match outcome {
            DestructorOutcome::Missing => Err(VPluginError::InvalidPlugin),
            DestructorOutcome::Invoked => {
                self.started = false;
                if !self.reusable {
                    self.is_valid = false;
                    self.raw = None;
                    self.filename = String::new();
                    self.metadata = None;
                }
                Ok(())
            },
        }
    }

    /// Returns a reference to the plugin metadata, if loaded. Otherwise,
    /// `None` is returned.
    pub fn get_metadata(&self) -> (r: &Option<PluginMetadata>)
        ensures
            *r == self.metadata,
    {
        &self.metadata
    }

    /// Returns whether the plugin metadata is available and loaded.
    pub fn is_metadata_loaded(&self) -> (r: bool)
        ensures
            r == (self.metadata is Some),
    {
        self.metadata.is_some()
    }

    /// Where the module file of this plugin lives and is bound from: its
    /// place in the extracted tree, and its isolated copy inside the
    /// plugin's own subdirectory, keyed by the plugin's name.
    pub fn module_paths(&self, staging_root: &str) -> (r: Result<ModulePaths, VPluginError>)
        ensures
            self.metadata is None ==> r == Err::<ModulePaths, VPluginError>(
                VPluginError::InvalidPlugin,
            ),
            self.metadata matches Some(m) ==> (r matches Ok(p) && p.plugin_dir@ == join_spec(
                staging_root@,
                m.name@,
            ) && p.source@ == join_spec(staging_root@, m.objfile@) && p.destination@ == join_spec(
                join_spec(staging_root@, m.name@),
                m.objfile@,
            )),
    {
        match &self.metadata {
            None => Err(VPluginError::InvalidPlugin),
            Some(m) => {
                let plugin_dir = join_path(staging_root, m.name.as_str());
                let source = join_path(staging_root, m.objfile.as_str());
                let destination = join_path(plugin_dir.as_str(), m.objfile.as_str());
                Ok(ModulePaths { plugin_dir, source, destination })
            },
        }
    }

    /// The directory to remove when this plugin is destroyed: its named
    /// subdirectory under the staging root. A plugin that never learned its
    /// identity has nothing to clean up.
    pub fn cleanup_path(&self, staging_root: &str) -> (r: Option<String>)
        ensures
            r is Some <==> self.metadata is Some,
            self.metadata matches Some(m) ==> (r matches Some(p) && p@ == join_spec(
                staging_root@,
                m.name@,
            )),
    {
        match &self.metadata {
            None => None,
            Some(m) => Some(join_path(staging_root, m.name.as_str())),
        }
    }
}

/// The places the dynamic binder works with, all under the staging root.
#[derive(Debug)]
pub struct ModulePaths {
    /// The plugin's own subdirectory, keyed by its name.
    pub plugin_dir: String,
    /// The module file in the extracted tree.
    pub source: String,
    /// The isolated copy that is actually bound.
    pub destination: String,
}

} // verus!
