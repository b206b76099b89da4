//! Models: the alpha hint generators offered for download, which entries of
//! the model folders count as installed models, and the model lists the UI
//! keeps in step with the disk.
use vstd::prelude::*;
use crate::names::{file_extension, file_stem, extension_of, stem_of};
use crate::text::{concat2, concat3, has_prefix, owned, push_decimal, same_text, starts_with,
    decimal};

verus! {

// ---------------------------------------------------------------------------
// Downloadable alpha models
// ---------------------------------------------------------------------------

/// The alpha hint generators that can be downloaded from the controls panel,
/// with the address of each.
pub open spec fn downloadable_models() -> Seq<(Seq<char>, Seq<char>)> {
    seq![
        ("BiRefNet"@, "https://huggingface.co/ZhengPeng7/BiRefNet/resolve/main/model.pth"@),
        ("GMV Auto"@, "https://huggingface.co/nikopueringer/CorridorKey/resolve/main/gmvauto.pth"@),
        ("VideoMaMa"@, "https://huggingface.co/nikopueringer/CorridorKey/resolve/main/videomama.pth"@),
        ("MatAnyone2"@, "https://huggingface.co/nikopueringer/CorridorKey/resolve/main/matanyone2.pth"@),
    ]
}

/// Whether `name` is one of the downloadable models.
pub open spec fn is_downloadable(name: Seq<char>) -> bool {
    exists|i: int| 0 <= i < downloadable_models().len() && #[trigger] downloadable_models()[i].0
        == name
}

/// The downloadable models, names and addresses, in the order offered.
pub fn available_alpha_models() -> (r: Vec<(&'static str, &'static str)>)
    ensures
        r@.len() == downloadable_models().len(),
        forall|i: int| 0 <= i < r@.len() ==> (#[trigger] r@[i].0@, r@[i].1@) == downloadable_models()[i],
{
    let r = vec![
        ("BiRefNet", "https://huggingface.co/ZhengPeng7/BiRefNet/resolve/main/model.pth"),
        ("GMV Auto", "https://huggingface.co/nikopueringer/CorridorKey/resolve/main/gmvauto.pth"),
        ("VideoMaMa", "https://huggingface.co/nikopueringer/CorridorKey/resolve/main/videomama.pth"),
        ("MatAnyone2", "https://huggingface.co/nikopueringer/CorridorKey/resolve/main/matanyone2.pth"),
    ];
    r
}

/// Whether `name` occurs in `list`.
pub fn list_contains(list: &Vec<String>, name: &str) -> (r: bool)
    ensures
        r == list.deep_view().contains(name@),
{
    let mut i: usize = 0;
    while i < list.len()
        invariant
            i <= list.len(),
            forall|j: int| 0 <= j < i ==> list.deep_view()[j] != name@,
        decreases list.len() - i,
    {
        if same_text(list[i].as_str(), name) {
            assert(list.deep_view()[i as int] == name@);
            return true;
        }
        i = i + 1;
    }
    false
}

/// Whether `name` is a downloadable model.
pub fn downloadable(name: &str) -> (r: bool)
    ensures
        r == is_downloadable(name@),
{
    let models = available_alpha_models();
    let mut i: usize = 0;
    while i < models.len()
        invariant
            i <= models.len(),
            models@.len() == downloadable_models().len(),
            forall|k: int| 0 <= k < models@.len() ==> (#[trigger] models@[k].0@, models@[k].1@)
                == downloadable_models()[k],
            forall|j: int| 0 <= j < i ==> downloadable_models()[j].0 != name@,
        decreases models.len() - i,
    {
        if same_text(models[i].0, name) {
            assert(downloadable_models()[i as int].0 == name@);
            return true;
        }
        i = i + 1;
    }
    false
}

/// A download is offered for the selected method when it is a downloadable
/// model that is not installed yet.
pub open spec fn download_offered(selected: Option<Seq<char>>, installed: Seq<Seq<char>>) -> bool {
    match selected {
        Some(name) => !installed.contains(name) && is_downloadable(name),
        None => false,
    }
}

/// Whether the controls panel offers to download the selected method.
pub fn needs_download(selected: &Option<String>, installed: &Vec<String>) -> (r: bool)
    ensures
        r == download_offered(selected.deep_view(), installed.deep_view()),
{
    match selected {
        Some(name) => !list_contains(installed, name.as_str()) && downloadable(name.as_str()),
        None => false,
    }
}

/// The download button's label.
pub fn download_label(name: &str) -> (r: String)
    ensures
        r@ == "↓ Download "@ + name@,
{
    concat2("↓ Download ", name)
}

/// The files fetched for an alpha model, each with its address.
pub open spec fn model_files(name: Seq<char>) -> Seq<(Seq<char>, Seq<char>)> {
    seq![
        ("config.json"@, "https://huggingface.co/ZhengPeng7/"@ + name + "/resolve/main/config.json"@),
        ("pytorch_model.bin"@, "https://huggingface.co/ZhengPeng7/"@ + name
            + "/resolve/main/pytorch_model.bin"@),
    ]
}

/// The files to fetch into `alpha_models/<name>` when the model is
/// downloaded.
pub fn model_download_files(name: &str) -> (r: Vec<(String, String)>)
    ensures
        r@.len() == 2,
        forall|i: int| 0 <= i < 2 ==> (#[trigger] r@[i].0@, r@[i].1@) == model_files(name@)[i],
{
    let config = concat3("https://huggingface.co/ZhengPeng7/", name, "/resolve/main/config.json");
    let weights = concat3(
        "https://huggingface.co/ZhengPeng7/",
        name,
        "/resolve/main/pytorch_model.bin",
    );
    let r = vec![(owned("config.json"), config), (owned("pytorch_model.bin"), weights)];
    r
}

/// After a download, the model joins the installed list and becomes the
/// selected method.
pub fn after_download(installed: &mut Vec<String>, name: &str) -> (r: Option<String>)
    ensures
        final(installed).deep_view() == old(installed).deep_view().push(name@),
        r.deep_view() == Some(name@),
{
    installed.push(owned(name));
    assert(final(installed).deep_view() =~= old(installed).deep_view().push(name@));
    Some(owned(name))
}

// ---------------------------------------------------------------------------
// Installed alpha models
// ---------------------------------------------------------------------------

/// The method an entry of the alpha models folder offers: hidden entries,
/// the cache tag and hub caches are skipped; a folder offers its name; a
/// `.pth` file offers its stem; anything else offers nothing.
pub open spec fn model_option(name: Seq<char>, is_dir: bool) -> Option<Seq<char>> {
    if has_prefix(name, "."@) || name == "CACHEDIR.TAG"@ || has_prefix(name, "models--"@) {
        None
    } else if is_dir {
        Some(name)
    } else if file_extension(name) == Some("pth"@) {
        Some(file_stem(name))
    } else {
        None
    }
}

/// The method offered by one entry of the alpha models folder.
pub fn alpha_model_option(name: &str, is_dir: bool) -> (r: Option<String>)
    ensures
        r.deep_view() == model_option(name@, is_dir),
{
    if starts_with(name, ".") || same_text(name, "CACHEDIR.TAG") || starts_with(name, "models--") {
        return None;
    }
    if is_dir {
        return Some(owned(name));
    }
    let ext = extension_of(name);
    let is_pth = match &ext {
        Some(x) => same_text(x.as_str(), "pth"),
        None => false,
    };
    if is_pth {
        Some(stem_of(name))
    } else {
        None
    }
}

/// The first installed method is selected at start; none when there is none.
pub fn initial_method(options: &Vec<String>) -> (r: Option<String>)
    ensures
        r.deep_view() == if options@.len() > 0 {
            Some(options.deep_view()[0])
        } else {
            None
        },
{
    if options.len() > 0 {
        Some(owned(options[0].as_str()))
    } else {
        None
    }
}

// ---------------------------------------------------------------------------
// Keyer models (the model selector)
// ---------------------------------------------------------------------------

/// The model names the selector lists for the files of the key models
/// folder: each file's stem, in order.
pub fn model_names(file_names: &Vec<String>) -> (r: Vec<String>)
    ensures
        r.deep_view() == file_names.deep_view().map_values(|n: Seq<char>| file_stem(n)),
{
    let mut out: Vec<String> = Vec::new();
    let mut i: usize = 0;
    while i < file_names.len()
        invariant
            i <= file_names.len(),
            out@.len() == i,
            forall|j: int| 0 <= j < i ==> #[trigger] out@[j]@ == file_stem(file_names@[j]@),
        decreases file_names.len() - i,
    {
        out.push(stem_of(file_names[i].as_str()));
        i = i + 1;
    }
    assert(out.deep_view() =~= file_names.deep_view().map_values(|n: Seq<char>| file_stem(n)));
    out
}

/// Whether two lists hold the same names in the same order.
pub fn same_list(a: &Vec<String>, b: &Vec<String>) -> (r: bool)
    ensures
        r == (a.deep_view() == b.deep_view()),
{
    if a.len() != b.len() {
        assert(a.deep_view().len() != b.deep_view().len());
        return false;
    }
    let mut i: usize = 0;
    while i < a.len()
        invariant
            i <= a.len(),
            a.len() == b.len(),
            forall|j: int| 0 <= j < i ==> a.deep_view()[j] == b.deep_view()[j],
        decreases a.len() - i,
    {
        if !same_text(a[i].as_str(), b[i].as_str()) {
            assert(a.deep_view()[i as int] != b.deep_view()[i as int]);
            return false;
        }
        i = i + 1;
    }
    assert(a.deep_view() =~= b.deep_view());
    true
}

/// What a rescan of the key models folder changes.
pub struct Rescan {
    /// The new list, when it differs from the one shown.
    pub options: Option<Vec<String>>,
    /// A model to select, when none was selected and models appeared.
    pub select: Option<String>,
}

/// A rescan changes the list only when the folder's contents differ from
/// it; the first model is then selected if nothing was.
pub open spec fn rescan_effect(
    found: Seq<Seq<char>>,
    shown: Seq<Seq<char>>,
    nothing_selected: bool,
) -> (Option<Seq<Seq<char>>>, Option<Seq<char>>) {
    if found == shown {
        (None, None)
    } else {
        (
            Some(found),
            if nothing_selected && found.len() > 0 {
                Some(found[0])
            } else {
                None
            },
        )
    }
}

/// Compares a rescan with the list shown.
pub fn rescan(found: Vec<String>, shown: &Vec<String>, nothing_selected: bool) -> (r: Rescan)
    ensures
        (match r.options {
            Some(v) => Some(v.deep_view()),
            None => None,
        }, r.select.deep_view()) == rescan_effect(found.deep_view(), shown.deep_view(), nothing_selected),
{
    if same_list(&found, shown) {
        return Rescan { options: None, select: None };
    }
    let select = if nothing_selected && found.len() > 0 {
        Some(owned(found[0].as_str()))
    } else {
        None
    };
    Rescan { options: Some(found), select }
}

/// The caption under the model selector.
pub open spec fn model_count_caption(n: nat) -> Seq<char> {
    if n == 0 {
        "No models found"@
    } else {
        decimal(n) + " models available"@
    }
}

/// The caption for `n` models.
pub fn model_count_label(n: usize) -> (r: String)
    ensures
        r@ == model_count_caption(n as nat),
{
    if n == 0 {
        owned("No models found")
    } else {
        let mut out = String::new();
        push_decimal(&mut out, n as u64);
        out.append(" models available");
        proof {
            assert(Seq::<char>::empty() + decimal(n as nat) =~= decimal(n as nat));
        }
        out
    }
}

} // verus!
