//! The files a run leaves behind: their names, the guard against writing over
//! the files of an earlier run, and the set that is written at the end.

use crate::error::{ErrorView, ProvisionError};
use crate::keys::{ArtifactView, ProvisioningArtifact};
use crate::profile::{suffixes, BackendKind};
use crate::text::{copy_bytes, texts};
use vstd::prelude::*;
use vstd::string::StringExecFns;

verus! {

/// The fixed endings of the output files' names.
#[derive(Clone, Copy, Debug, PartialEq, Eq, Structural)]
pub enum Suffix {
    DeviceCertificate,
    RootAttestation,
    RootPubkey,
    TargetsAttestation,
    TargetsPubkey,
}

/// The ending of a file's name, after the serial number and an underscore.
pub open spec fn suffix_name(suffix: Suffix) -> Seq<char> {
    match suffix {
        Suffix::DeviceCertificate => "cert.der"@,
        Suffix::RootAttestation => "root_attestation.der"@,
        Suffix::RootPubkey => "root_pubkey.pub"@,
        Suffix::TargetsAttestation => "targets_attestation.der"@,
        Suffix::TargetsPubkey => "targets_pubkey.pub"@,
    }
}

impl Suffix {
    /// The ending of the file's name.
    pub fn name(self) -> (s: &'static str)
        ensures
            s@ == suffix_name(self),
    {
        match self {
            Suffix::DeviceCertificate => "cert.der",
            Suffix::RootAttestation => "root_attestation.der",
            Suffix::RootPubkey => "root_pubkey.pub",
            Suffix::TargetsAttestation => "targets_attestation.der",
            Suffix::TargetsPubkey => "targets_pubkey.pub",
        }
    }
}

/// The name of an output file: the serial number, an underscore, the suffix.
pub open spec fn path_of(serial: Seq<char>, suffix: Suffix) -> Seq<char> {
    serial + "_"@ + suffix_name(suffix)
}

/// The names of the output files of a device, one for each suffix.
pub open spec fn paths_of(serial: Seq<char>, suffixes: Seq<Suffix>) -> Seq<Seq<char>> {
    Seq::new(suffixes.len(), |i: int| path_of(serial, suffixes[i]))
}

/// `i` is the first place at which a file is present.
pub open spec fn is_first_present(presence: Seq<bool>, i: int) -> bool {
    0 <= i < presence.len() && presence[i] && forall|j: int| 0 <= j < i ==> !presence[j]
}

/// The guard against writing over earlier results: `presence` answers, path
/// by path, whether a file is there. An answer of another length is no
/// answer; the first path that is taken is a conflict.
pub open spec fn guard_outputs(paths: Seq<Seq<char>>, presence: Seq<bool>) -> Result<(), ErrorView> {
    if presence.len() != paths.len() {
        Err(ErrorView::OutOfTurn)
    } else if exists|i: int| is_first_present(presence, i) {
        Err(ErrorView::OutputConflict { path: paths[choose|i: int| is_first_present(presence, i)] })
    } else {
        Ok(())
    }
}

/// A result as a value of the model.
pub open spec fn verdict(r: Result<(), ProvisionError>) -> Result<(), ErrorView> {
    match r {
        Ok(_) => Ok(()),
        Err(error) => Err(error@),
    }
}

/// `r` is what the guard says of these paths on some answer to the question
/// which of them exist, one answer for each path.
pub open spec fn is_guard_verdict(r: Result<(), ErrorView>, paths: Seq<Seq<char>>) -> bool {
    exists|presence: Seq<bool>|
        presence.len() == paths.len() && r == #[trigger] guard_outputs(paths, presence)
}

/// Where a file is present there is a first place at which one is.
pub proof fn lemma_first_present_exists(presence: Seq<bool>, i: int)
    requires
        0 <= i < presence.len(),
        presence[i],
    ensures
        exists|k: int| is_first_present(presence, k),
    decreases i,
{
    if exists|j: int| 0 <= j < i && presence[j] {
        let j = choose|j: int| 0 <= j < i && presence[j];
        lemma_first_present_exists(presence, j);
    } else {
        assert(is_first_present(presence, i));
    }
}

/// The guard lets a run go on exactly when none of the files is there, and
/// otherwise names one that is.
pub proof fn law_guard_passes_only_a_clear_place(paths: Seq<Seq<char>>, presence: Seq<bool>)
    requires
        presence.len() == paths.len(),
    ensures
        guard_outputs(paths, presence) is Ok <==> forall|i: int|
            0 <= i < presence.len() ==> !presence[i],
        guard_outputs(paths, presence) matches Err(error) ==> exists|i: int|
            0 <= i < presence.len() && presence[i] && error == (ErrorView::OutputConflict {
                path: #[trigger] paths[i],
            }),
{
    if exists|i: int| 0 <= i < presence.len() && presence[i] {
        let i = choose|i: int| 0 <= i < presence.len() && presence[i];
        lemma_first_present_exists(presence, i);
    }
    if exists|i: int| is_first_present(presence, i) {
        let first = choose|i: int| is_first_present(presence, i);
        assert(0 <= first < presence.len() && presence[first] && guard_outputs(paths, presence)
            == Err::<(), ErrorView>(ErrorView::OutputConflict { path: paths[first] }));
    }
}

/// The name of an output file.
pub fn output_path(serial_number: &str, suffix: Suffix) -> (path: String)
    ensures
        path@ == path_of(serial_number@, suffix),
{
    let mut path = String::from_str(serial_number);
    path.append("_");
    path.append(suffix.name());
    path
}

/// The names of the output files of a device.
pub fn output_paths(serial_number: &str, suffixes: &Vec<Suffix>) -> (paths: Vec<String>)
    ensures
        texts(paths@) == paths_of(serial_number@, suffixes@),
{
    let mut paths: Vec<String> = Vec::new();
    let mut i: usize = 0;
    while i < suffixes.len()
        invariant
            i <= suffixes.len(),
            paths.len() == i,
            forall|j: int| 0 <= j < i ==> (#[trigger] paths@[j])@ == path_of(serial_number@, suffixes@[j]),
        decreases suffixes.len() - i,
    {
        paths.push(output_path(serial_number, suffixes[i]));
        i += 1;
    }
    assert(texts(paths@) =~= paths_of(serial_number@, suffixes@));
    paths
}

/// Decides from the answers whether the run may go on.
pub fn check_presence(paths: &Vec<String>, presence: &Vec<bool>) -> (r: Result<(), ProvisionError>)
    ensures
        match guard_outputs(texts(paths@), presence@) {
            Ok(_) => r is Ok,
            Err(e) => r is Err && r->Err_0@ == e,
        },
{
    if presence.len() != paths.len() {
        return Err(ProvisionError::OutOfTurn);
    }
    let mut i: usize = 0;
    while i < presence.len()
        invariant
            i <= presence.len(),
            presence.len() == paths.len(),
            forall|j: int| 0 <= j < i ==> !presence@[j],
        decreases presence.len() - i,
    {
        if presence[i] {
            proof {
                assert(is_first_present(presence@, i as int));
                let k = choose|k: int| is_first_present(presence@, k);
                assert(k == i) by {
                    if k < i {
                        assert(!presence@[k]);
                    } else if i < k {
                        assert(!presence@[i as int]);
                    }
                }
            }
            return Err(ProvisionError::OutputConflict { path: paths[i].clone() });
        }
        i += 1;
    }
    Ok(())
}

/// `std::path::Path::exists` on the path: whether something is there now.
/// The answer depends on the disk, so nothing is said of it.
#[verifier::external_body]
fn path_exists(path: &str) -> (present: bool) {
    std::path::Path::new(path).exists()
}

/// Asks the disk, path by path, whether a file is there.
pub fn probe_outputs(paths: &Vec<String>) -> (presence: Vec<bool>)
    ensures
        presence.len() == paths.len(),
{
    let mut presence: Vec<bool> = Vec::new();
    let mut i: usize = 0;
    while i < paths.len()
        invariant
            i <= paths.len(),
            presence.len() == i,
        decreases paths.len() - i,
    {
        presence.push(path_exists(paths[i].as_str()));
        i += 1;
    }
    presence
}

/// Refuses to go on where the disk holds a file under one of the names that a
/// run on the device would write. The disk is asked about exactly those
/// names, the serial number with each suffix in turn, and the result is what
/// the guard says of its answers: nothing where none of them exists, else the
/// conflict with the first that does.
pub fn check_no_existing_outputs(serial_number: &str, expected_suffixes: &Vec<Suffix>) -> (r:
    Result<(), ProvisionError>)
    ensures
        is_guard_verdict(verdict(r), paths_of(serial_number@, expected_suffixes@)),
        expected_suffixes.len() == 0 ==> r is Ok,
        r matches Err(error) ==> exists|i: int|
            0 <= i < expected_suffixes.len() && error@ == (ErrorView::OutputConflict {
                path: path_of(serial_number@, #[trigger] expected_suffixes@[i]),
            }),
{
    let paths = output_paths(serial_number, expected_suffixes);
    let presence = probe_outputs(&paths);
    let result = check_presence(&paths, &presence);
    proof {
        let names = paths_of(serial_number@, expected_suffixes@);
        assert(presence@.len() == names.len());
        assert(verdict(result) == guard_outputs(names, presence@));
        if result is Err {
            let i = choose|i: int| is_first_present(presence@, i);
            assert(names[i] == path_of(serial_number@, expected_suffixes@[i]));
        }
    }
    result
}

/// The guard of a run on a USB module: none of its five files may exist. The
/// result is what the guard says of the disk's answers about those five.
pub fn file_presence_checks(serial_number: &str) -> (r: Result<(), ProvisionError>)
    ensures
        is_guard_verdict(verdict(r), paths_of(serial_number@, suffixes(BackendKind::UsbHsm))),
        r matches Err(error) ==> exists|i: int|
            0 <= i < suffixes(BackendKind::UsbHsm).len() && error@ == (ErrorView::OutputConflict {
                path: path_of(serial_number@, #[trigger] suffixes(BackendKind::UsbHsm)[i]),
            }),
{
    check_no_existing_outputs(serial_number, &BackendKind::UsbHsm.suffixes())
}

/// One file of the output set: the ending of its name and its content.
#[derive(Clone, Debug, PartialEq, Eq)]
pub struct OutputFile {
    pub suffix: Suffix,
    pub content: Vec<u8>,
}

/// The files of one run, named after the serial number of the device.
#[derive(Clone, Debug, PartialEq, Eq)]
pub struct OutputSet {
    serial_number: String,
    files: Vec<OutputFile>,
}

/// An output set as a value of the model: the serial number, and the files
/// in the order they are written.
pub struct OutputSetView {
    pub serial_number: Seq<char>,
    pub files: Seq<(Suffix, Seq<u8>)>,
}

/// The files of a vector as values of the model.
pub open spec fn files_of(files: Seq<OutputFile>) -> Seq<(Suffix, Seq<u8>)> {
    Seq::new(files.len(), |i: int| (files[i].suffix, files[i].content@))
}

impl View for OutputSet {
    type V = OutputSetView;

    closed spec fn view(&self) -> OutputSetView {
        OutputSetView { serial_number: self.serial_number@, files: files_of(self.files@) }
    }
}

/// The file that a certificate gives where there is one.
pub open spec fn optional_file(suffix: Suffix, content: Option<Seq<u8>>) -> Seq<(Suffix, Seq<u8>)> {
    match content {
        Some(bytes) => seq![(suffix, bytes)],
        None => Seq::empty(),
    }
}

/// The output set of a run: the device's certificate where there is one,
/// then for the root key and for the targets key the attestation where there
/// is one and the public key. Each content is what the device returned.
pub open spec fn assembled(
    serial: Seq<char>,
    root: ArtifactView,
    targets: ArtifactView,
    certificate: Option<Seq<u8>>,
) -> OutputSetView {
    OutputSetView {
        serial_number: serial,
        files: optional_file(Suffix::DeviceCertificate, certificate) + optional_file(
            Suffix::RootAttestation,
            root.attestation,
        ) + seq![(Suffix::RootPubkey, root.public_key)] + optional_file(
            Suffix::TargetsAttestation,
            targets.attestation,
        ) + seq![(Suffix::TargetsPubkey, targets.public_key)],
    }
}

/// The suffixes of some files, in their order.
pub open spec fn suffixes_of(files: Seq<(Suffix, Seq<u8>)>) -> Seq<Suffix> {
    Seq::new(files.len(), |i: int| files[i].0)
}

/// No two files of the set share a name.
pub open spec fn distinct_names(files: Seq<(Suffix, Seq<u8>)>) -> bool {
    forall|i: int, j: int| 0 <= i < j < files.len() ==> files[i].0 != files[j].0
}

/// The files of a run all have different names, and there are at least the
/// two public keys among them.
pub proof fn law_assembled_names_are_distinct(
    serial: Seq<char>,
    root: ArtifactView,
    targets: ArtifactView,
    certificate: Option<Seq<u8>>,
)
    ensures
        distinct_names(assembled(serial, root, targets, certificate).files),
        assembled(serial, root, targets, certificate).files.len() >= 2,
{
    let head = optional_file(Suffix::DeviceCertificate, certificate) + optional_file(
        Suffix::RootAttestation,
        root.attestation,
    ) + seq![(Suffix::RootPubkey, root.public_key)];
    let tail = optional_file(Suffix::TargetsAttestation, targets.attestation) + seq![
        (Suffix::TargetsPubkey, targets.public_key),
    ];
    let files = assembled(serial, root, targets, certificate).files;
    assert(files =~= head + tail);
    assert forall|i: int, j: int| 0 <= i < j < files.len() implies files[i].0 != files[j].0 by {
        assert(forall|k: int|
            0 <= k < head.len() ==> (#[trigger] head[k]).0 == Suffix::DeviceCertificate || head[k].0
                == Suffix::RootAttestation || head[k].0 == Suffix::RootPubkey);
        assert(forall|k: int|
            0 <= k < tail.len() ==> (#[trigger] tail[k]).0 == Suffix::TargetsAttestation
                || tail[k].0 == Suffix::TargetsPubkey);
    }
}

impl OutputSet {
    /// A set without files for a device.
    pub fn empty(serial_number: &str) -> (set: OutputSet)
        ensures
            set@ == (OutputSetView { serial_number: serial_number@, files: Seq::empty() }),
    {
        let set = OutputSet { serial_number: String::from_str(serial_number), files: Vec::new() };
        assert(files_of(set.files@) =~= Seq::empty());
        set
    }

    /// The serial number the files are named after.
    pub fn serial_number(&self) -> (serial: &str)
        ensures
            serial@ == self@.serial_number,
    {
        self.serial_number.as_str()
    }

    /// The number of files.
    pub fn len(&self) -> (n: usize)
        ensures
            n == self@.files.len(),
    {
        self.files.len()
    }

    /// The suffix of the file at a place.
    pub fn suffix(&self, i: usize) -> (suffix: Suffix)
        requires
            i < self@.files.len(),
        ensures
            suffix == self@.files[i as int].0,
    {
        self.files[i].suffix
    }

    /// The content of the file at a place.
    pub fn content(&self, i: usize) -> (content: &Vec<u8>)
        requires
            i < self@.files.len(),
        ensures
            content@ == self@.files[i as int].1,
    {
        &self.files[i].content
    }

    /// The name of the file at a place.
    pub fn path(&self, i: usize) -> (path: String)
        requires
            i < self@.files.len(),
        ensures
            path@ == path_of(self@.serial_number, self@.files[i as int].0),
    {
        output_path(self.serial_number.as_str(), self.files[i].suffix)
    }

    fn put(&mut self, suffix: Suffix, content: &Vec<u8>)
        ensures
            final(self)@ == (OutputSetView {
                serial_number: old(self)@.serial_number,
                files: old(self)@.files.push((suffix, content@)),
            }),
    {
        self.files.push(OutputFile { suffix, content: copy_bytes(content) });
        assert(files_of(self.files@) =~= files_of(old(self).files@).push((suffix, content@)));
    }

    fn put_optional(&mut self, suffix: Suffix, content: &Option<Vec<u8>>)
        ensures
            final(self)@ == (OutputSetView {
                serial_number: old(self)@.serial_number,
                files: old(self)@.files + optional_file(
                    suffix,
                    match *content {
                        Some(bytes) => Some(bytes@),
                        None => None,
                    },
                ),
            }),
    {
        match content {
            Some(bytes) => {
                self.put(suffix, bytes);
                assert(old(self)@.files.push((suffix, bytes@)) =~= old(self)@.files + seq![
                    (suffix, bytes@),
                ]);
            },
            None => {
                assert(old(self)@.files + Seq::<(Suffix, Seq<u8>)>::empty() =~= old(self)@.files);
            },
        }
    }
}

/// Bundles what the device returned into the set of files to write.
pub fn assemble(
    serial_number: &str,
    root: &ProvisioningArtifact,
    targets: &ProvisioningArtifact,
    certificate: &Option<Vec<u8>>,
) -> (set: OutputSet)
    ensures
        set@ == assembled(
            serial_number@,
            root@,
            targets@,
            match *certificate {
                Some(bytes) => Some(bytes@),
                None => None,
            },
        ),
{
    let mut set = OutputSet::empty(serial_number);
    set.put_optional(Suffix::DeviceCertificate, certificate);
    assert(Seq::<(Suffix, Seq<u8>)>::empty() + set@.files =~= set@.files);
    set.put_optional(Suffix::RootAttestation, &root.attestation);
    set.put(Suffix::RootPubkey, &root.public_key);
    set.put_optional(Suffix::TargetsAttestation, &targets.attestation);
    set.put(Suffix::TargetsPubkey, &targets.public_key);
    assert(set@.files =~= assembled(
        serial_number@,
        root@,
        targets@,
        match *certificate {
            Some(bytes) => Some(bytes@),
            None => None,
        },
    ).files);
    set
}

} // verus!
