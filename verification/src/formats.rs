//! The quality ladder: from the encodings a source offers to one option per
//! fixed height, each with its size and its selection expression.
//!
//! Bitrates are whole bits per second and durations whole milliseconds; a
//! bitrate of zero stands for an unknown one.

use vstd::prelude::*;
use vstd::string::StringExecFns;
use crate::size::{estimate_size, estimate_size_spec, format_size, size_text};
use crate::text::{decimal, push_decimal};

verus! {

/// One encoding that the source offers.
#[derive(Clone, Debug, PartialEq, Eq)]
pub struct SourceEncoding {
    /// The tool's name for the encoding.
    pub format_id: String,
    /// The height of the picture in lines, where the source tells it.
    pub height: Option<i32>,
    /// Whether the encoding carries a picture.
    pub has_video: bool,
    /// Whether the encoding carries sound.
    pub has_audio: bool,
    /// The bitrate of the picture.
    pub video_bitrate: u64,
    /// The bitrate of the sound.
    pub audio_bitrate: u64,
    /// The bitrate of the whole.
    pub total_bitrate: u64,
    /// The size in bytes, where the source knows it.
    pub exact_size: Option<u64>,
    /// The size in bytes as the source guesses it.
    pub approximate_size: Option<u64>,
}

/// What is known of a resource before it is fetched.
#[derive(Clone, Debug, PartialEq, Eq)]
pub struct Metadata {
    /// The encodings that the source offers, in the order it lists them.
    pub encodings: Vec<SourceEncoding>,
    /// The duration of the resource; zero where it is unknown.
    pub duration_ms: u64,
}

/// The number of heights on the ladder.
pub const LADDER_LEN: usize = 7;

/// The heights for which an option is offered, the tallest first.
pub open spec fn ladder() -> Seq<i32> {
    seq![1440i32, 1080i32, 720i32, 480i32, 360i32, 240i32, 144i32]
}

/// The height at place `k` of the ladder.
pub fn ladder_height(k: usize) -> (height: i32)
    requires
        k < LADDER_LEN,
    ensures
        height == ladder()[k as int],
        height > 0,
{
    if k == 0 {
        1440
    } else if k == 1 {
        1080
    } else if k == 2 {
        720
    } else if k == 3 {
        480
    } else if k == 4 {
        360
    } else if k == 5 {
        240
    } else {
        144
    }
}

/// Whether a codec of this name is present: the name is neither empty nor
/// `none`.
pub open spec fn names_codec(name: Seq<char>) -> bool {
    name != "none"@ && name.len() > 0
}

/// Executable form of [`names_codec`].
pub fn codec_present(name: &str) -> (present: bool)
    ensures
        present == names_codec(name@),
{
    !name.is_empty() && String::from_str(name) != String::from_str("none")
}

/// The bitrate by which an encoding's sound is judged: its own, or that of
/// the whole where its own is unknown.
pub open spec fn audio_rate(e: SourceEncoding) -> u64 {
    if e.audio_bitrate > 0 {
        e.audio_bitrate
    } else {
        e.total_bitrate
    }
}

/// The bitrate by which an encoding's picture is judged: its own, or that of
/// the whole where its own is unknown.
pub open spec fn video_rate(e: SourceEncoding) -> u64 {
    if e.video_bitrate > 0 {
        e.video_bitrate
    } else {
        e.total_bitrate
    }
}

/// The size that the source reports: the exact one before the approximate.
pub open spec fn reported_size(e: SourceEncoding) -> Option<u64> {
    match e.exact_size {
        Some(s) => Some(s),
        None => e.approximate_size,
    }
}

/// The size of an encoding and whether it is an estimate: the reported size
/// where there is one, else the estimate from `bitrate` and the duration.
pub open spec fn size_of(e: SourceEncoding, bitrate: u64, duration_ms: u64) -> (u64, bool) {
    match reported_size(e) {
        Some(s) => (s, false),
        None => (estimate_size_spec(bitrate, duration_ms), true),
    }
}

/// Whether an encoding carries sound and no picture.
pub open spec fn is_audio_only(e: SourceEncoding) -> bool {
    !e.has_video && e.has_audio
}

/// The sound chosen for all options.
#[derive(Clone, Copy, Debug, PartialEq, Eq)]
pub struct AudioChoice {
    /// The place of the chosen encoding among the offered ones.
    pub index: Option<usize>,
    /// Its bitrate.
    pub bitrate: u64,
    /// Its size in bytes.
    pub size: u64,
    /// Whether that size is an estimate.
    pub estimated: bool,
}

/// No sound chosen.
pub open spec fn no_audio() -> AudioChoice {
    AudioChoice { index: None, bitrate: 0, size: 0, estimated: false }
}

/// Whether a candidate takes the place of the choice so far: it has the
/// higher bitrate, or both bitrates are unknown and it is the larger.
pub open spec fn beats(bitrate: u64, size: u64, best: AudioChoice) -> bool {
    bitrate > best.bitrate || (bitrate == 0 && best.bitrate == 0 && size > best.size)
}

/// The sound chosen among the first `n` encodings: the audio-only encoding
/// with the highest bitrate, the first of several; where no bitrate is
/// known, the largest, the first of several; none where no audio-only
/// encoding has a bitrate or a size.
pub open spec fn best_audio_among(encodings: Seq<SourceEncoding>, duration_ms: u64, n: int) -> AudioChoice
    decreases n,
{
    if n <= 0 {
        no_audio()
    } else {
        let best = best_audio_among(encodings, duration_ms, n - 1);
        let e = encodings[n - 1];
        let (size, estimated) = size_of(e, audio_rate(e), duration_ms);
        if is_audio_only(e) && beats(audio_rate(e), size, best) {
            AudioChoice { index: Some((n - 1) as usize), bitrate: audio_rate(e), size, estimated }
        } else {
            best
        }
    }
}

/// The sound chosen among all encodings.
pub open spec fn best_audio(encodings: Seq<SourceEncoding>, duration_ms: u64) -> AudioChoice {
    best_audio_among(encodings, duration_ms, encodings.len() as int)
}

/// The chosen sound is an audio-only encoding with the bitrate and size that
/// the choice records, and no audio-only encoding has a higher bitrate.
/// Where none is chosen, no audio-only encoding has a bitrate or a size.
pub proof fn lemma_best_audio_is_best(encodings: Seq<SourceEncoding>, duration_ms: u64, n: int)
    requires
        0 <= n <= encodings.len() <= usize::MAX,
    ensures
        ({
            let best = best_audio_among(encodings, duration_ms, n);
            &&& forall|j: int|
                0 <= j < n && is_audio_only(#[trigger] encodings[j]) ==> audio_rate(encodings[j])
                    <= best.bitrate
            &&& match best.index {
                Some(i) => {
                    &&& i < n
                    &&& is_audio_only(encodings[i as int])
                    &&& best.bitrate == audio_rate(encodings[i as int])
                    &&& (best.size, best.estimated) == size_of(
                        encodings[i as int],
                        best.bitrate,
                        duration_ms,
                    )
                    &&& best.bitrate > 0 || best.size > 0
                },
                None => {
                    &&& best == no_audio()
                    &&& forall|j: int|
                        0 <= j < n && is_audio_only(#[trigger] encodings[j]) ==> size_of(
                            encodings[j],
                            0,
                            duration_ms,
                        ).0 == 0
                },
            }
        }),
    decreases n,
{
    if n > 0 {
        lemma_best_audio_is_best(encodings, duration_ms, n - 1);
    }
}

/// Whether an encoding serves the height `height`: it carries a picture of
/// exactly that height.
pub open spec fn serves(e: SourceEncoding, height: i32) -> bool {
    e.has_video && e.height == Some(height)
}

/// The place of the picture chosen for `height` among the first `n`
/// encodings: the one of the highest bitrate among those that serve the
/// height, the first of several.
pub open spec fn best_video_among(encodings: Seq<SourceEncoding>, height: i32, n: int) -> Option<
    usize,
>
    decreases n,
{
    if n <= 0 {
        None
    } else {
        let best = best_video_among(encodings, height, n - 1);
        let e = encodings[n - 1];
        if serves(e, height) && (best matches Some(b) ==> video_rate(e) > video_rate(
            encodings[b as int],
        )) {
            Some((n - 1) as usize)
        } else {
            best
        }
    }
}

/// The place of the picture chosen for `height` among all encodings.
pub open spec fn best_video(encodings: Seq<SourceEncoding>, height: i32) -> Option<usize> {
    best_video_among(encodings, height, encodings.len() as int)
}

/// A picture is chosen exactly when some encoding serves the height; the
/// chosen one serves it, none that serves it has a higher bitrate, and none
/// before it has the same.
pub proof fn lemma_best_video_is_best(encodings: Seq<SourceEncoding>, height: i32, n: int)
    requires
        0 <= n <= encodings.len() <= usize::MAX,
    ensures
        match best_video_among(encodings, height, n) {
            Some(i) => {
                &&& i < n
                &&& serves(encodings[i as int], height)
                &&& forall|j: int|
                    0 <= j < n && serves(#[trigger] encodings[j], height) ==> video_rate(
                        encodings[j],
                    ) <= video_rate(encodings[i as int])
                &&& forall|j: int|
                    0 <= j < i && serves(#[trigger] encodings[j], height) ==> video_rate(
                        encodings[j],
                    ) < video_rate(encodings[i as int])
            },
            None => forall|j: int| 0 <= j < n ==> !serves(#[trigger] encodings[j], height),
        },
    decreases n,
{
    if n > 0 {
        lemma_best_video_is_best(encodings, height, n - 1);
    }
}

/// One rung of the quality ladder.
#[derive(Clone, Debug, PartialEq, Eq)]
pub struct QualityOption {
    /// The label shown for the rung, such as `720p`.
    pub quality: String,
    /// The height of the rung.
    pub height: i32,
    /// The size of the picture in bytes.
    pub video_size: u64,
    /// The size of the sound fetched beside the picture; zero where the
    /// picture carries its own.
    pub audio_size: u64,
    /// The size of the whole in bytes.
    pub total_size: u64,
    /// The size of the whole for display.
    pub total_size_formatted: String,
    /// The selection expression that fetches the rung.
    pub format_string: String,
    /// Whether the picture carries its own sound.
    pub has_combined_audio: bool,
    /// Whether the source offers the rung.
    pub available: bool,
}

/// The model of a [`QualityOption`].
pub struct QualityOptionView {
    pub quality: Seq<char>,
    pub height: i32,
    pub video_size: u64,
    pub audio_size: u64,
    pub total_size: u64,
    pub total_size_formatted: Seq<char>,
    pub format_string: Seq<char>,
    pub has_combined_audio: bool,
    pub available: bool,
}

impl DeepView for QualityOption {
    type V = QualityOptionView;

    open spec fn deep_view(&self) -> QualityOptionView {
        QualityOptionView {
            quality: self.quality@,
            height: self.height,
            video_size: self.video_size,
            audio_size: self.audio_size,
            total_size: self.total_size,
            total_size_formatted: self.total_size_formatted@,
            format_string: self.format_string@,
            has_combined_audio: self.has_combined_audio,
            available: self.available,
        }
    }
}

impl View for QualityOption {
    type V = QualityOptionView;

    open spec fn view(&self) -> QualityOptionView {
        self.deep_view()
    }
}

/// The options of a source.
#[derive(Clone, Debug, PartialEq, Eq)]
pub struct FormatsResponse {
    /// One option for each height of the ladder, the tallest first.
    pub qualities: Vec<QualityOption>,
    /// The size of the chosen sound in bytes.
    pub best_audio_size: u64,
    /// The tool's name for the chosen sound; empty where none is chosen.
    pub best_audio_format_id: String,
}

/// The model of a [`FormatsResponse`].
pub struct FormatsResponseView {
    pub qualities: Seq<QualityOptionView>,
    pub best_audio_size: u64,
    pub best_audio_format_id: Seq<char>,
}

impl View for FormatsResponse {
    type V = FormatsResponseView;

    open spec fn view(&self) -> FormatsResponseView {
        FormatsResponseView {
            qualities: self.qualities.deep_view(),
            best_audio_size: self.best_audio_size,
            best_audio_format_id: self.best_audio_format_id@,
        }
    }
}

/// The tool's name for the chosen sound; empty where none is chosen.
pub open spec fn audio_id(encodings: Seq<SourceEncoding>, audio: AudioChoice) -> Seq<char> {
    match audio.index {
        Some(i) => encodings[i as int].format_id@,
        None => Seq::empty(),
    }
}

/// The label of the rung of height `height`.
pub open spec fn label_of(height: i32) -> Seq<char> {
    decimal(height as nat) + "p"@
}

/// Asks for the best picture of at most `height` with the best sound, else
/// for the best whole of at most `height`.
pub open spec fn bounded_selection(height: i32) -> Seq<char> {
    "(bv*[height<="@ + decimal(height as nat) + "]+ba)/b[height<="@ + decimal(height as nat)
        + "]"@
}

/// The selection of a rung that the source does not offer:
/// [`bounded_selection`], else the best of all.
pub open spec fn fallback_selection(height: i32) -> Seq<char> {
    bounded_selection(height) + "/best"@
}

/// The selection of a rung whose picture carries its own sound: the best
/// picture of exactly `height` remuxed with the best sound, else the whole
/// of exactly `height`, else the best whole of at most `height`.
pub open spec fn combined_selection(height: i32) -> Seq<char> {
    "(bv*[height="@ + decimal(height as nat) + "]+ba)/b[height="@ + decimal(height as nat)
        + "]/b[height<="@ + decimal(height as nat) + "]"@
}

/// The selection that pairs the picture `video_id` with the sound
/// `audio_id`, else takes the best of all.
pub open spec fn paired_selection(video_id: Seq<char>, audio_id: Seq<char>) -> Seq<char> {
    "("@ + video_id + "+"@ + audio_id + ")/best"@
}

/// The sum of two sizes, held to the range of `u64`.
pub open spec fn size_sum(a: u64, b: u64) -> u64 {
    if a + b > u64::MAX {
        u64::MAX
    } else {
        (a + b) as u64
    }
}

/// The rung of height `height` that the source does not offer.
pub open spec fn unavailable_option(height: i32) -> QualityOptionView {
    QualityOptionView {
        quality: label_of(height),
        height,
        video_size: 0,
        audio_size: 0,
        total_size: 0,
        total_size_formatted: "N/A"@,
        format_string: fallback_selection(height),
        has_combined_audio: false,
        available: false,
    }
}

/// The rung of height `height` whose picture is `e`.
pub open spec fn available_option(
    e: SourceEncoding,
    audio: AudioChoice,
    audio_id: Seq<char>,
    duration_ms: u64,
    height: i32,
) -> QualityOptionView {
    let (video_size, video_estimated) = size_of(e, video_rate(e), duration_ms);
    if e.has_audio {
        QualityOptionView {
            quality: label_of(height),
            height,
            video_size,
            audio_size: 0,
            total_size: video_size,
            total_size_formatted: size_text(video_size, video_estimated),
            format_string: combined_selection(height),
            has_combined_audio: true,
            available: true,
        }
    } else {
        let total = size_sum(video_size, audio.size);
        QualityOptionView {
            quality: label_of(height),
            height,
            video_size,
            audio_size: audio.size,
            total_size: total,
            total_size_formatted: size_text(total, video_estimated || audio.estimated),
            format_string: if audio_id.len() > 0 {
                paired_selection(e.format_id@, audio_id)
            } else {
                bounded_selection(height)
            },
            has_combined_audio: false,
            available: true,
        }
    }
}

/// The rung of height `height` for a source.
pub open spec fn option_for(encodings: Seq<SourceEncoding>, duration_ms: u64, height: i32) -> QualityOptionView {
    let audio = best_audio(encodings, duration_ms);
    match best_video(encodings, height) {
        Some(i) => available_option(
            encodings[i as int],
            audio,
            audio_id(encodings, audio),
            duration_ms,
            height,
        ),
        None => unavailable_option(height),
    }
}

/// The options of a source: one rung for each height of the ladder, the
/// tallest first, and the chosen sound.
pub open spec fn formats_of(encodings: Seq<SourceEncoding>, duration_ms: u64) -> FormatsResponseView {
    let audio = best_audio(encodings, duration_ms);
    FormatsResponseView {
        qualities: Seq::new(
            LADDER_LEN as nat,
            |k: int| option_for(encodings, duration_ms, ladder()[k]),
        ),
        best_audio_size: audio.size,
        best_audio_format_id: audio_id(encodings, audio),
    }
}

/// The size of an encoding judged by `bitrate`, and whether it is an
/// estimate.
fn measure(e: &SourceEncoding, bitrate: u64, duration_ms: u64) -> (r: (u64, bool))
    ensures
        r == size_of(*e, bitrate, duration_ms),
{
    match e.exact_size {
        Some(s) => (s, false),
        None => match e.approximate_size {
            Some(s) => (s, false),
            None => (estimate_size(bitrate, duration_ms), true),
        },
    }
}

/// Chooses the sound for all options.
pub fn choose_audio(encodings: &Vec<SourceEncoding>, duration_ms: u64) -> (best: AudioChoice)
    ensures
        best == best_audio(encodings@, duration_ms),
        best.index matches Some(i) ==> i < encodings.len(),
{
    let mut best = AudioChoice { index: None, bitrate: 0, size: 0, estimated: false };
    let mut i: usize = 0;
    while i < encodings.len()
        invariant
            i <= encodings.len(),
            best == best_audio_among(encodings@, duration_ms, i as int),
            best.index matches Some(b) ==> b < i,
        decreases encodings.len() - i,
    {
        let e = &encodings[i];
        if !e.has_video && e.has_audio {
            let rate: u64 = if e.audio_bitrate > 0 {
                e.audio_bitrate
            } else {
                e.total_bitrate
            };
            let (size, estimated) = measure(e, rate, duration_ms);
            if rate > best.bitrate || (rate == 0 && best.bitrate == 0 && size > best.size) {
                best = AudioChoice { index: Some(i), bitrate: rate, size, estimated };
            }
        }
        i += 1;
    }
    best
}

/// Chooses the picture for the height `height`.
pub fn choose_video(encodings: &Vec<SourceEncoding>, height: i32) -> (best: Option<usize>)
    ensures
        best == best_video(encodings@, height),
        best matches Some(i) ==> i < encodings.len(),
{
    let mut best: Option<usize> = None;
    let mut best_rate: u64 = 0;
    let mut i: usize = 0;
    while i < encodings.len()
        invariant
            i <= encodings.len(),
            best == best_video_among(encodings@, height, i as int),
            best matches Some(b) ==> b < i && best_rate == video_rate(encodings@[b as int]),
        decreases encodings.len() - i,
    {
        let e = &encodings[i];
        let at_height: bool = match e.height {
            Some(h) => h == height,
            None => false,
        };
        if e.has_video && at_height {
            let rate: u64 = if e.video_bitrate > 0 {
                e.video_bitrate
            } else {
                e.total_bitrate
            };
            if best.is_none() || rate > best_rate {
                best = Some(i);
                best_rate = rate;
            }
        }
        i += 1;
    }
    best
}

/// Appends the numeral of `height`.
fn push_height(out: &mut String, height: i32)
    requires
        height > 0,
    ensures
        final(out)@ == old(out)@ + decimal(height as nat),
{
    push_decimal(out, height as u64);
}

fn make_label(height: i32) -> (s: String)
    requires
        height > 0,
    ensures
        s@ == label_of(height),
{
    let mut s = String::new();
    push_height(&mut s, height);
    s.append("p");
    assert(s@ =~= label_of(height));
    s
}

fn make_bounded_selection(height: i32) -> (s: String)
    requires
        height > 0,
    ensures
        s@ == bounded_selection(height),
{
    let mut s = String::from_str("(bv*[height<=");
    push_height(&mut s, height);
    s.append("]+ba)/b[height<=");
    push_height(&mut s, height);
    s.append("]");
    assert(s@ =~= bounded_selection(height));
    s
}

fn make_combined_selection(height: i32) -> (s: String)
    requires
        height > 0,
    ensures
        s@ == combined_selection(height),
{
    let mut s = String::from_str("(bv*[height=");
    push_height(&mut s, height);
    s.append("]+ba)/b[height=");
    push_height(&mut s, height);
    s.append("]/b[height<=");
    push_height(&mut s, height);
    s.append("]");
    assert(s@ =~= combined_selection(height));
    s
}

fn make_paired_selection(video_id: &str, audio_id: &str) -> (s: String)
    ensures
        s@ == paired_selection(video_id@, audio_id@),
{
    let mut s = String::from_str("(");
    s.append(video_id);
    s.append("+");
    s.append(audio_id);
    s.append(")/best");
    assert(s@ =~= paired_selection(video_id@, audio_id@));
    s
}

/// The tool's name for the chosen sound; empty where none is chosen.
fn chosen_audio_id(encodings: &Vec<SourceEncoding>, audio: &AudioChoice) -> (id: String)
    requires
        audio.index matches Some(i) ==> i < encodings.len(),
    ensures
        id@ == audio_id(encodings@, *audio),
{
    match audio.index {
        Some(i) => encodings[i].format_id.clone(),
        None => String::new(),
    }
}

/// Builds the rung of height `height` from the chosen picture and sound.
fn make_option(
    encodings: &Vec<SourceEncoding>,
    duration_ms: u64,
    audio: &AudioChoice,
    audio_name: &str,
    height: i32,
) -> (option: QualityOption)
    requires
        height > 0,
        *audio == best_audio(encodings@, duration_ms),
        audio_name@ == audio_id(encodings@, *audio),
    ensures
        option@ == option_for(encodings@, duration_ms, height),
{
    match choose_video(encodings, height) {
        Some(i) => {
            let e = &encodings[i];
            let rate: u64 = if e.video_bitrate > 0 {
                e.video_bitrate
            } else {
                e.total_bitrate
            };
            let (video_size, video_estimated) = measure(e, rate, duration_ms);
            if e.has_audio {
                QualityOption {
                    quality: make_label(height),
                    height,
                    video_size,
                    audio_size: 0,
                    total_size: video_size,
                    total_size_formatted: format_size(video_size, video_estimated),
                    format_string: make_combined_selection(height),
                    has_combined_audio: true,
                    available: true,
                }
            } else {
                let total: u64 = if video_size > u64::MAX - audio.size {
                    u64::MAX
                } else {
                    video_size + audio.size
                };
                let format_string = if !audio_name.is_empty() {
                    make_paired_selection(e.format_id.as_str(), audio_name)
                } else {
                    make_bounded_selection(height)
                };
                QualityOption {
                    quality: make_label(height),
                    height,
                    video_size,
                    audio_size: audio.size,
                    total_size: total,
                    total_size_formatted: format_size(total, video_estimated || audio.estimated),
                    format_string,
                    has_combined_audio: false,
                    available: true,
                }
            }
        },
        None => {
            let mut format_string = make_bounded_selection(height);
            format_string.append("/best");
            QualityOption {
                quality: make_label(height),
                height,
                video_size: 0,
                audio_size: 0,
                total_size: 0,
                total_size_formatted: String::from_str("N/A"),
                format_string,
                has_combined_audio: false,
                available: false,
            }
        },
    }
}

/// Works out the options of a source from the encodings it offers and the
/// duration of the resource: one rung for each height of the ladder, the
/// tallest first, and the sound chosen for all of them.
pub fn resolve_formats(metadata: &Metadata) -> (response: FormatsResponse)
    ensures
        response@ == formats_of(metadata.encodings@, metadata.duration_ms),
        response.qualities.len() == LADDER_LEN,
        forall|k: int|
            0 <= k < LADDER_LEN ==> (#[trigger] response.qualities[k])@ == option_for(
                metadata.encodings@,
                metadata.duration_ms,
                ladder()[k],
            ),
{
    let encodings = &metadata.encodings;
    let duration_ms = metadata.duration_ms;
    let audio = choose_audio(encodings, duration_ms);
    let audio_name = chosen_audio_id(encodings, &audio);
    let mut qualities: Vec<QualityOption> = Vec::new();
    let mut k: usize = 0;
    while k < LADDER_LEN
        invariant
            k <= LADDER_LEN,
            audio == best_audio(encodings@, duration_ms),
            audio_name@ == audio_id(encodings@, audio),
            qualities.len() == k,
            forall|j: int|
                0 <= j < k ==> (#[trigger] qualities@[j])@ == option_for(
                    encodings@,
                    duration_ms,
                    ladder()[j],
                ),
        decreases LADDER_LEN - k,
    {
        let option = make_option(
            encodings,
            duration_ms,
            &audio,
            audio_name.as_str(),
            ladder_height(k),
        );
        qualities.push(option);
        k += 1;
    }
    assert(qualities.deep_view() =~= formats_of(encodings@, duration_ms).qualities);
    FormatsResponse { qualities, best_audio_size: audio.size, best_audio_format_id: audio_name }
}

/// The options of any source are seven rungs, one for each height of the
/// ladder, in descending order of height, each labelled by its height.
pub proof fn lemma_ladder_shape(encodings: Seq<SourceEncoding>, duration_ms: u64)
    ensures
        formats_of(encodings, duration_ms).qualities.len() == LADDER_LEN,
        forall|k: int|
            0 <= k < LADDER_LEN ==> {
                let rung = #[trigger] formats_of(encodings, duration_ms).qualities[k];
                rung.height == ladder()[k] && rung.quality == label_of(ladder()[k])
            },
        forall|j: int, k: int|
            0 <= j < k < LADDER_LEN ==> formats_of(encodings, duration_ms).qualities[j].height
                > formats_of(encodings, duration_ms).qualities[k].height,
{
    assert forall|k: int| 0 <= k < LADDER_LEN implies {
        let rung = #[trigger] formats_of(encodings, duration_ms).qualities[k];
        rung.height == ladder()[k] && rung.quality == label_of(ladder()[k])
    } by {
        let rung = option_for(encodings, duration_ms, ladder()[k]);
        assert(rung.height == ladder()[k]);
    }
}

/// A rung is offered exactly when some encoding carries a picture of its
/// height. A rung for which no encoding has that height is not offered and
/// has no size.
pub proof fn lemma_unserved_height_is_unavailable(
    encodings: Seq<SourceEncoding>,
    duration_ms: u64,
    height: i32,
)
    requires
        encodings.len() <= usize::MAX,
    ensures
        option_for(encodings, duration_ms, height).available == exists|j: int|
            0 <= j < encodings.len() && serves(#[trigger] encodings[j], height),
        (forall|j: int| 0 <= j < encodings.len() ==> (#[trigger] encodings[j]).height != Some(height))
            ==> {
            &&& !option_for(encodings, duration_ms, height).available
            &&& option_for(encodings, duration_ms, height).total_size == 0
            &&& option_for(encodings, duration_ms, height) == unavailable_option(height)
        },
{
    lemma_best_video_is_best(encodings, height, encodings.len() as int);
    match best_video(encodings, height) {
        Some(i) => {
            assert(serves(encodings[i as int], height));
        },
        None => {},
    }
}

} // verus!
