//! The test-case provisioner: it guarantees that a problem's extracted
//! case tree is present in the local cache before any case runs, and it
//! downloads and unpacks the archive at most once per problem.
//!
//! The cache is modelled explicitly: a [`CaseCache`] records which
//! problems already have a ready case tree, [`CaseCache::plan`] decides
//! what one provisioning step must do, and [`CaseCache::complete`]
//! records a finished extraction. Opening and unpacking the archive
//! bytes goes through the zip reader.

use vstd::prelude::*;

use crate::error::Error;

verus! {

/// `std::io::Cursor`, declared so an in-memory byte buffer can serve as
/// the archive reader.
#[verifier::external_type_specification]
#[verifier::external_body]
#[verifier::reject_recursive_types(T)]
pub struct ExCursor<T>(std::io::Cursor<T>);

/// `zip::read::ZipArchive`, declared so an opened archive can move from
/// the open step to the extract step.
#[verifier::external_type_specification]
#[verifier::external_body]
#[verifier::reject_recursive_types(R)]
pub struct ExZipArchive<R>(zip::read::ZipArchive<R>);

/// Whether a byte sequence is a readable zip container: whether reading
/// its central directory succeeds. A function of the bytes alone.
pub uninterp spec fn zip_well_formed(bytes: Seq<u8>) -> bool;

/// Relies on `zip::ZipArchive::new`: reading the central directory of an
/// in-memory buffer is deterministic in the bytes, and succeeds exactly
/// on readable containers.
#[verifier::external_body]
fn zip_open(bytes: Vec<u8>) -> (r: Result<
    zip::read::ZipArchive<std::io::Cursor<Vec<u8>>>,
    zip::result::ZipError,
>)
    ensures
        r is Ok <==> zip_well_formed(bytes@),
{
    zip::ZipArchive::new(std::io::Cursor::new(bytes))
}

/// Relies on `zip::ZipArchive::extract`: unpacks every entry of the
/// archive below the given directory, creating it as needed. The
/// outcome depends on the disk, so nothing is promised of it.
#[verifier::external_body]
fn zip_extract(
    archive: &mut zip::read::ZipArchive<std::io::Cursor<Vec<u8>>>,
    dest: &str,
) -> (r: Result<(), zip::result::ZipError>) {
    archive.extract(dest)
}

/// Opens downloaded archive bytes and unpacks the full case tree below
/// the cache directory. Bytes that are no readable zip container are
/// rejected as a bad test case; an archive that opens but cannot be
/// unpacked in full is a failed extraction. Both are fatal for the run.
pub fn extract_test_cases(bytes: Vec<u8>, dest: &str) -> (r: Result<(), Error>)
    ensures
        r is Ok ==> zip_well_formed(bytes@),
        !zip_well_formed(bytes@) <==> (r matches Err(e) && e is BadTestCase),
        r matches Err(e) ==> e is BadTestCase || e is BadTestCaseExtract,
{
    let mut archive = match zip_open(bytes) {
        Ok(a) => a,
        Err(e) => {
            return Err(Error::BadTestCase(e));
        },
    };
    match zip_extract(&mut archive, dest) {
        Ok(_) => Ok(()),
        Err(e) => Err(Error::BadTestCaseExtract(e)),
    }
}

/// What one provisioning step must do.
#[derive(Debug, Clone, Copy, PartialEq, Eq, Structural)]
pub enum ProvisionAction {
    /// The extracted case tree is already present; nothing is
    /// downloaded or extracted.
    UseCache,
    /// The archive must be downloaded and extracted.
    Fetch,
}

/// What a provisioning step decides, given whether the problem's case
/// tree is cached and whether the problem names an archive at all: a
/// cached problem is reused outright, an uncached one with an archive
/// is fetched, and an uncached one without an archive is a fatal
/// missing-test-case condition.
pub open spec fn spec_plan(cached: bool, has_archive: bool) -> Result<ProvisionAction, Error> {
    if cached {
        Ok(ProvisionAction::UseCache)
    } else if has_archive {
        Ok(ProvisionAction::Fetch)
    } else {
        Err(Error::NoTestCase)
    }
}

/// The problems whose case trees are already extracted into the local
/// cache.
pub struct CaseCache {
    ready: Vec<i32>,
}

impl View for CaseCache {
    type V = Set<i32>;

    closed spec fn view(&self) -> Set<i32> {
        self.ready@.to_set()
    }
}

impl CaseCache {
    /// A cache that has provisioned nothing yet.
    pub fn new() -> (c: CaseCache)
        ensures
            c@ == Set::<i32>::empty(),
    {
        let c = CaseCache { ready: Vec::new() };
        proof {
            assert(c@ =~= Set::<i32>::empty());
        }
        c
    }

    /// Whether a problem's case tree is already present.
    pub fn is_ready(&self, problem: i32) -> (r: bool)
        ensures
            r == self@.contains(problem),
    {
        let mut i: usize = 0;
        while i < self.ready.len()
            invariant
                i <= self.ready@.len(),
                forall|k: int| 0 <= k < i ==> self.ready@[k] != problem,
            decreases self.ready@.len() - i,
        {
            if self.ready[i] == problem {
                return true;
            }
            i = i + 1;
        }
        proof {
            assert(!self.ready@.contains(problem));
        }
        false
    }

    /// Decides what provisioning this problem requires right now.
    pub fn plan(&self, problem: i32, has_archive: bool) -> (r: Result<ProvisionAction, Error>)
        ensures
            r == spec_plan(self@.contains(problem), has_archive),
    {
        if self.is_ready(problem) {
            Ok(ProvisionAction::UseCache)
        } else if has_archive {
            Ok(ProvisionAction::Fetch)
        } else {
            Err(Error::NoTestCase)
        }
    }

    /// Records that this problem's case tree is now extracted.
    pub fn complete(&mut self, problem: i32)
        ensures
            final (self)@ == old(self)@.insert(problem),
    {
        self.ready.push(problem);
        proof {
            assert(self.ready@.drop_last() == old(self).ready@);
            assert forall|p: i32| self@.contains(p) <==> old(
                self,
            )@.insert(problem).contains(p) by {
                if p == problem {
                    assert(self.ready@.last() == problem);
                    assert(self.ready@.contains(problem));
                } else {
                    if old(self).ready@.contains(p) {
                        let k = choose|k: int|
                            0 <= k < old(self).ready@.len() && old(self).ready@[k] == p;
                        assert(self.ready@[k] == p);
                    }
                    if self.ready@.contains(p) {
                        let k = choose|k: int| 0 <= k < self.ready@.len() && self.ready@[k] == p;
                        assert(old(self).ready@[k] == p);
                    }
                }
            }
            assert(self@ =~= old(self)@.insert(problem));
        }
    }
}

/// Provisioning is idempotent: once a provision of a problem has
/// completed, every later plan for the same problem is answered from
/// the cache — nothing is downloaded or extracted again, whatever the
/// archive reference says.
pub proof fn lemma_provision_idempotent(before: Set<i32>, problem: i32, has_archive: bool)
    ensures
        spec_plan(before.insert(problem).contains(problem), has_archive) == Ok::<
            ProvisionAction,
            Error,
        >(ProvisionAction::UseCache),
{
    assert(before.insert(problem).contains(problem));
}

} // verus!
