//! Following pip's download progress.
//!
//! pip prints lines such as
//!
//! ```text
//! Downloading torch-2.4.0-cp311-cp311-win_amd64.whl (2.6 GB)
//!    ━━━━━━━━━━━━━━━━ 1.2/2.6 GB 45.2 MB/s eta 0:00:30
//! ```
//!
//! The first gives the size of the download; the second, how much has
//! arrived and how fast.  This module picks those pieces of text out of a
//! line; reading them as decimal numbers is the host's part.
use vstd::prelude::*;
use crate::text::{
    char_count, chars_of, concat2, count_char, find_first, find_last_char, first_index,
    has_char, has_infix, has_prefix, last_pos, owned, same_text, slice_chars, split_words,
    starts_with, contains, contains_char, string_of, trim, trim_ws, words,
};

verus! {

/// The size text of a `Downloading ... (X GB)` line: the text between the
/// last `(` and the first ` GB)` after it, trimmed.
pub open spec fn size_text(t: Seq<char>) -> Option<Seq<char>> {
    if has_prefix(t, "Downloading "@) && has_infix(t, "GB)"@) {
        let st = last_pos(t, '(');
        if st >= 0 {
            let rest = t.skip(st + 1);
            match first_index(rest, " GB)"@) {
                Some(e) => Some(trim_ws(rest.take(e))),
                None => None,
            }
        } else {
            None
        }
    } else {
        None
    }
}

/// A progress line mentions a rate and holds a slash.
pub open spec fn is_progress_line(t: Seq<char>) -> bool {
    (has_infix(t, "MB/s"@) || has_infix(t, "GB/s"@)) && has_char(t, '/')
}

/// A word `a/b` (exactly one slash, no colon) gives the pair `(a, b)`.
pub open spec fn ratio_of(w: Seq<char>) -> Option<(Seq<char>, Seq<char>)> {
    if !has_char(w, ':') && char_count(w, '/') == 1 {
        let p = last_pos(w, '/');
        Some((w.take(p), w.skip(p + 1)))
    } else {
        None
    }
}

/// The pairs of the words, in order.
pub open spec fn ratios_of(ws: Seq<Seq<char>>) -> Seq<(Seq<char>, Seq<char>)>
    decreases ws.len(),
{
    if ws.len() == 0 {
        Seq::empty()
    } else {
        ratios_of(ws.drop_last()) + match ratio_of(ws.last()) {
            Some(r) => seq![r],
            None => Seq::empty(),
        }
    }
}

/// Whether a word is a rate unit.
pub open spec fn is_rate_unit(w: Seq<char>) -> bool {
    w == "MB/s"@ || w == "GB/s"@
}

/// The rate: the first rate unit that follows another word, with that word
/// (`45.2 MB/s`), searching from word `i`.
pub open spec fn speed_from(ws: Seq<Seq<char>>, i: int) -> Option<Seq<char>>
    decreases ws.len() - i,
{
    if i < 0 || i >= ws.len() {
        None
    } else if is_rate_unit(ws[i]) && i > 0 {
        Some(ws[i - 1] + " "@ + ws[i])
    } else {
        speed_from(ws, i + 1)
    }
}

/// What a line of pip's output tells.
pub struct PipLine {
    /// The size of the download being started, as text.
    pub total_text: Option<String>,
    /// Whether the line reports progress.
    pub is_progress: bool,
    /// On a progress line, the `done/total` pairs, in order.
    pub ratios: Vec<(String, String)>,
    /// On a progress line, the rate.
    pub speed: Option<String>,
}

/// The mathematical form of a `PipLine`.
pub struct PipLineView {
    pub total_text: Option<Seq<char>>,
    pub is_progress: bool,
    pub ratios: Seq<(Seq<char>, Seq<char>)>,
    pub speed: Option<Seq<char>>,
}

impl View for PipLine {
    type V = PipLineView;

    open spec fn view(&self) -> PipLineView {
        PipLineView {
            total_text: self.total_text.deep_view(),
            is_progress: self.is_progress,
            ratios: self.ratios@.map_values(|p: (String, String)| (p.0@, p.1@)),
            speed: self.speed.deep_view(),
        }
    }
}

/// What a line tells, read from the line without its surrounding white
/// space.
pub open spec fn pip_line(line: Seq<char>) -> PipLineView {
    let t = trim_ws(line);
    let progress = is_progress_line(t);
    PipLineView {
        total_text: size_text(t),
        is_progress: progress,
        ratios: if progress {
            ratios_of(words(t))
        } else {
            Seq::empty()
        },
        speed: if progress {
            speed_from(words(t), 0)
        } else {
            None
        },
    }
}

fn size_text_exec(t: &str) -> (r: Option<String>)
    ensures
        r.deep_view() == size_text(t@),
{
    if !(starts_with(t, "Downloading ") && contains(t, "GB)")) {
        return None;
    }
    let tc = chars_of(t);
    match find_last_char(&tc, '(') {
        Some(st) => {
            assert(st < tc.len());
            let rest = slice_chars(&tc, st + 1, tc.len());
            assert(rest@ =~= t@.skip(st + 1));
            let unit = chars_of(" GB)");
            match find_first(&rest, &unit) {
                Some(e) => {
                    let size = slice_chars(&rest, 0, e);
                    assert(size@ =~= rest@.take(e as int));
                    Some(trim(string_of(&size).as_str()))
                },
                None => None,
            }
        },
        None => None,
    }
}

fn ratio_exec(w: &str) -> (r: Option<(String, String)>)
    ensures
        match r {
            Some(p) => ratio_of(w@) == Some((p.0@, p.1@)),
            None => ratio_of(w@) is None,
        },
{
    if contains_char(w, ':') {
        return None;
    }
    let wc = chars_of(w);
    if count_char(&wc, '/') != 1 {
        return None;
    }
    match find_last_char(&wc, '/') {
        Some(p) => {
            assert(p < wc.len());
            let a = slice_chars(&wc, 0, p);
            let b = slice_chars(&wc, p + 1, wc.len());
            assert(a@ =~= w@.take(p as int));
            assert(b@ =~= w@.skip(p + 1));
            Some((string_of(&a), string_of(&b)))
        },
        None => {
            proof {
                lemma_single_char_found(wc@, '/');
            }
            None
        },
    }
}

proof fn lemma_single_char_found(s: Seq<char>, c: char)
    requires
        char_count(s, c) == 1,
    ensures
        last_pos(s, c) >= 0,
    decreases s.len(),
{
    if s.len() > 0 && s.last() != c {
        lemma_single_char_found(s.drop_last(), c);
    }
}

fn is_rate_unit_exec(w: &str) -> (r: bool)
    ensures
        r == is_rate_unit(w@),
{
    same_text(w, "MB/s") || same_text(w, "GB/s")
}

fn find_speed(ws: &Vec<String>) -> (r: Option<String>)
    ensures
        r.deep_view() == speed_from(ws.deep_view(), 0),
{
    let ghost wv = ws.deep_view();
    let mut k: usize = 0;
    while k < ws.len()
        invariant
            k <= ws.len(),
            wv == ws.deep_view(),
            speed_from(wv, 0) == speed_from(wv, k as int),
        decreases ws.len() - k,
    {
        if is_rate_unit_exec(ws[k].as_str()) && k > 0 {
            let mut s = owned(ws[k - 1].as_str());
            s.append(" ");
            s.append(ws[k].as_str());
            return Some(s);
        }
        k = k + 1;
    }
    None
}

/// Reads one line of pip's output.
pub fn parse_pip_line(line: &str) -> (r: PipLine)
    ensures
        r@ == pip_line(line@),
{
    let trimmed = trim(line);
    let t = trimmed.as_str();
    let total_text = size_text_exec(t);
    let progress = (contains(t, "MB/s") || contains(t, "GB/s")) && contains_char(t, '/');
    if !progress {
        let r = PipLine { total_text, is_progress: false, ratios: Vec::new(), speed: None };
        assert(r@.ratios =~= Seq::<(Seq<char>, Seq<char>)>::empty());
        return r;
    }
    let ws = split_words(t);
    let mut ratios: Vec<(String, String)> = Vec::new();
    let mut i: usize = 0;
    while i < ws.len()
        invariant
            i <= ws.len(),
            ratios@.map_values(|p: (String, String)| (p.0@, p.1@)) == ratios_of(
                ws.deep_view().take(i as int),
            ),
        decreases ws.len() - i,
    {
        let ghost before = ratios@.map_values(|p: (String, String)| (p.0@, p.1@));
        proof {
            assert(ws.deep_view().take(i + 1).drop_last() =~= ws.deep_view().take(i as int));
            assert(ws.deep_view().take(i + 1).last() == ws@[i as int]@);
        }
        match ratio_exec(ws[i].as_str()) {
            Some(p) => {
                ratios.push(p);
                assert(ratios@.map_values(|p: (String, String)| (p.0@, p.1@)) =~= before
                    + seq![(p.0@, p.1@)]);
            },
            None => {
                assert(before + Seq::<(Seq<char>, Seq<char>)>::empty() =~= before);
            },
        }
        i = i + 1;
    }
    assert(ws.deep_view().take(ws.len() as int) =~= ws.deep_view());
    let speed = find_speed(&ws);
    PipLine { total_text, is_progress: true, ratios, speed }
}

/// The message shown while pip downloads CUDA PyTorch.  `amounts` are the
/// downloaded and total sizes as the host prints them (one decimal), when
/// known; `speed` is the rate, when pip printed one.
pub open spec fn download_message(amounts: Option<(Seq<char>, Seq<char>)>, speed: Option<Seq<char>>) -> Seq<char> {
    match amounts {
        Some((dl, total)) => match speed {
            None => "Downloading CUDA torch... "@ + dl + "/"@ + total + " GB"@,
            Some(s) => "Downloading CUDA torch... "@ + dl + "/"@ + total + " GB  @ "@ + s,
        },
        None => match speed {
            None => "Downloading CUDA torch..."@,
            Some(s) => "Downloading CUDA torch... @ "@ + s,
        },
    }
}

/// Builds the download message.
pub fn pip_download_message(amounts: Option<(&str, &str)>, speed: Option<&str>) -> (r: String)
    ensures
        r@ == download_message(
            match amounts {
                Some(p) => Some((p.0@, p.1@)),
                None => None,
            },
            match speed {
                Some(s) => Some(s@),
                None => None,
            },
        ),
{
    match amounts {
        Some((dl, total)) => {
            let mut out = owned("Downloading CUDA torch... ");
            out.append(dl);
            out.append("/");
            out.append(total);
            match speed {
                None => {
                    out.append(" GB");
                },
                Some(s) => {
                    out.append(" GB  @ ");
                    out.append(s);
                },
            }
            out
        },
        None => match speed {
            None => owned("Downloading CUDA torch..."),
            Some(s) => concat2("Downloading CUDA torch... @ ", s),
        },
    }
}

/// The error a streamed pip run ends with when pip fails.
pub fn pip_failure() -> (r: &'static str)
    ensures
        r@ == "pip install failed"@,
{
    "pip install failed"
}

} // verus!
