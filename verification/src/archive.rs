//! Reading the downloaded archives.
//!
//! The CorridorKey scripts come as a zip archive and the Python runtime as a
//! gzip-compressed tar.  Decompressing is the work of `zip` and `flate2`; what
//! they return is named below.  Which entries of the scripts archive are
//! written, and where, is decided here; the host only writes the files.
use vstd::prelude::*;
use crate::download::{entry_target, zip_entry_target};
use crate::text::concat2;

verus! {

/// The names of the entries of the zip archive `bytes`, in archive order, as
/// `zip::ZipArchive::by_index` and `ZipFile::name` give them, or the text of
/// the first error `zip` reports on the way.
pub uninterp spec fn zip_names(bytes: Seq<u8>) -> Result<Seq<Seq<char>>, Seq<char>>;

/// The decompressed contents of entry `index` of the zip archive `bytes`, or
/// the text of the error `zip` reports.
pub uninterp spec fn zip_entry_data(bytes: Seq<u8>, index: usize) -> Result<Seq<u8>, Seq<char>>;

/// The data `flate2::read::GzDecoder` decompresses out of `bytes`, or the
/// text of the error it reports.
pub uninterp spec fn gunzipped(bytes: Seq<u8>) -> Result<Seq<u8>, Seq<char>>;

/// The names of the entries of a zip archive held in memory
/// (`zip::ZipArchive::new`, `len`, `by_index`, `ZipFile::name`); an error
/// becomes its text.
#[verifier::external_body]
pub(crate) fn read_zip_names(bytes: &[u8]) -> (r: Result<Vec<String>, String>)
    ensures
        match r {
            Ok(v) => zip_names(bytes@) == Ok::<Seq<Seq<char>>, Seq<char>>(v.deep_view()),
            Err(e) => zip_names(bytes@) == Err::<Seq<Seq<char>>, Seq<char>>(e@),
        },
{
    let mut archive = zip::ZipArchive::new(std::io::Cursor::new(bytes)).map_err(|e| e.to_string())?;
    let mut names = Vec::new();
    for i in 0..archive.len() {
        let file = archive.by_index(i).map_err(|e| e.to_string())?;
        names.push(file.name().map_err(|e| e.to_string())?.to_string());
    }
    Ok(names)
}

/// The contents of entry `index` of a zip archive held in memory
/// (`zip::ZipArchive::new`, `by_index`, and reading the entry to its end); an
/// error becomes its text.
#[verifier::external_body]
pub(crate) fn read_zip_entry(bytes: &[u8], index: usize) -> (r: Result<Vec<u8>, String>)
    ensures
        match r {
            Ok(v) => zip_entry_data(bytes@, index) == Ok::<Seq<u8>, Seq<char>>(v@),
            Err(e) => zip_entry_data(bytes@, index) == Err::<Seq<u8>, Seq<char>>(e@),
        },
{
    let mut archive = zip::ZipArchive::new(std::io::Cursor::new(bytes)).map_err(|e| e.to_string())?;
    let mut file = archive.by_index(index).map_err(|e| e.to_string())?;
    let mut data = Vec::new();
    std::io::Read::read_to_end(&mut file, &mut data).map_err(|e| e.to_string())?;
    Ok(data)
}

/// Decompresses a gzip stream held in memory (`flate2::read::GzDecoder`,
/// read to its end); an error becomes its text.
#[verifier::external_body]
pub(crate) fn gunzip(bytes: &[u8]) -> (r: Result<Vec<u8>, String>)
    ensures
        match r {
            Ok(v) => gunzipped(bytes@) == Ok::<Seq<u8>, Seq<char>>(v@),
            Err(e) => gunzipped(bytes@) == Err::<Seq<u8>, Seq<char>>(e@),
        },
{
    let mut data = Vec::new();
    match std::io::Read::read_to_end(&mut flate2::read::GzDecoder::new(bytes), &mut data) {
        Ok(_) => Ok(data),
        Err(e) => Err(e.to_string()),
    }
}

/// The mathematical form of an extraction plan.
pub open spec fn plan_view(v: Seq<(String, bool, Vec<u8>)>) -> Seq<(Seq<char>, bool, Seq<u8>)> {
    v.map_values(|e: (String, bool, Vec<u8>)| (e.0@, e.1, e.2@))
}

/// What is written out of the scripts archive `bytes` whose entries are
/// named `names`: for each kept entry, in archive order, its path relative to
/// the module folder, whether it is a folder, and (for a file) its contents.
/// Folders are not read; the first file that cannot be read ends it with
/// `zip`'s error text.
pub open spec fn extraction(bytes: Seq<u8>, names: Seq<Seq<char>>) -> Result<
    Seq<(Seq<char>, bool, Seq<u8>)>,
    Seq<char>,
>
    decreases names.len(),
{
    if names.len() == 0 {
        Ok(Seq::empty())
    } else {
        match extraction(bytes, names.drop_last()) {
            Err(e) => Err(e),
            Ok(rest) => match entry_target(names.last()) {
                None => Ok(rest),
                Some((relative, is_dir)) => if is_dir {
                    Ok(rest.push((relative, true, Seq::empty())))
                } else {
                    match zip_entry_data(bytes, (names.len() - 1) as usize) {
                        Ok(data) => Ok(rest.push((relative, false, data))),
                        Err(e) => Err(e),
                    }
                },
            },
        }
    }
}

/// Once the plan of a prefix of the entries has failed, the plan of every
/// longer prefix fails with the same error.
proof fn lemma_extraction_error_stays(bytes: Seq<u8>, names: Seq<Seq<char>>, i: int, j: int)
    requires
        0 <= i <= j <= names.len(),
        extraction(bytes, names.take(i)) is Err,
    ensures
        extraction(bytes, names.take(j)) == extraction(bytes, names.take(i)),
    decreases j - i,
{
    if j > i {
        lemma_extraction_error_stays(bytes, names, i, j - 1);
        assert(names.take(j).drop_last() =~= names.take(j - 1));
    }
}

/// Plans the extraction of the scripts archive: its entry names are read
/// first (a failure there is `zip`'s error text), then each kept file entry
/// is read in turn.
pub fn corridor_scripts_plan(bytes: &[u8]) -> (r: Result<Vec<(String, bool, Vec<u8>)>, String>)
    ensures
        match zip_names(bytes@) {
            Err(e) => r matches Err(m) && m@ == e,
            Ok(names) => match r {
                Ok(p) => extraction(bytes@, names) == Ok::<
                    Seq<(Seq<char>, bool, Seq<u8>)>,
                    Seq<char>,
                >(plan_view(p@)),
                Err(m) => extraction(bytes@, names) == Err::<
                    Seq<(Seq<char>, bool, Seq<u8>)>,
                    Seq<char>,
                >(m@),
            },
        },
{
    let names = match read_zip_names(bytes) {
        Ok(n) => n,
        Err(e) => return Err(e),
    };
    let ghost all = names.deep_view();
    let mut plan: Vec<(String, bool, Vec<u8>)> = Vec::new();
    let mut i: usize = 0;
    proof {
        assert(all.take(0) =~= Seq::<Seq<char>>::empty());
        assert(plan_view(plan@) =~= Seq::<(Seq<char>, bool, Seq<u8>)>::empty());
    }
    while i < names.len()
        invariant
            i <= names.len(),
            all == names.deep_view(),
            all.len() == names.len(),
            zip_names(bytes@) == Ok::<Seq<Seq<char>>, Seq<char>>(all),
            extraction(bytes@, all.take(i as int)) == Ok::<
                Seq<(Seq<char>, bool, Seq<u8>)>,
                Seq<char>,
            >(plan_view(plan@)),
        decreases names.len() - i,
    {
        let ghost before = all.take(i as int);
        let ghost after = all.take(i + 1);
        proof {
            assert(after.drop_last() =~= before);
            assert(after.last() == names@[i as int]@);
        }
        match zip_entry_target(names[i].as_str()) {
            Some((relative, is_dir)) => {
                let ghost old_plan = plan@;
                if is_dir {
                    plan.push((relative, true, Vec::new()));
                    proof {
                        assert(plan_view(plan@) =~= plan_view(old_plan).push(
                            (relative@, true, Seq::<u8>::empty()),
                        ));
                    }
                } else {
                    match read_zip_entry(bytes, i) {
                        Ok(data) => {
                            plan.push((relative, false, data));
                            proof {
                                assert(plan_view(plan@) =~= plan_view(old_plan).push(
                                    (relative@, false, data@),
                                ));
                            }
                        },
                        Err(e) => {
                            proof {
                                lemma_extraction_error_stays(bytes@, all, i + 1, all.len() as int);
                                assert(all.take(all.len() as int) =~= all);
                            }
                            return Err(e);
                        },
                    }
                }
            },
            None => {},
        }
        i = i + 1;
    }
    proof {
        assert(all.take(all.len() as int) =~= all);
    }
    Ok(plan)
}

/// Decompresses the downloaded Python runtime into its tar archive.  Fails
/// exactly when `flate2` reports an error, with `Extraction failed: ` and the
/// error's text.
pub fn python_runtime_tar(bytes: &[u8]) -> (r: Result<Vec<u8>, String>)
    ensures
        match gunzipped(bytes@) {
            Ok(t) => r matches Ok(v) && v@ == t,
            Err(e) => r matches Err(m) && m@ == "Extraction failed: "@ + e,
        },
{
    match gunzip(bytes) {
        Ok(t) => Ok(t),
        Err(e) => Err(concat2("Extraction failed: ", e.as_str())),
    }
}

} // verus!
