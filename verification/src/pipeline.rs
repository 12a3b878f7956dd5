use vstd::prelude::*;

verus! {

/// The text of the playback pipeline up to the media's URI.
pub open spec fn pipeline_head() -> Seq<char> {
    "playbin uri=\""@
}

/// The text of the playback pipeline after the media's URI: the video sink converts and
/// scales every frame to RGBA with square pixels and hands it to an application sink.
pub open spec fn pipeline_tail() -> Seq<char> {
    "\" video-sink=\"videoconvert ! videoscale ! appsink name=app_sink caps=video/x-raw,format=RGBA,pixel-aspect-ratio=1/1\""@
}

/// The launch description of the pipeline that plays the media at `uri`.
pub open spec fn spec_pipeline_description(uri: Seq<char>) -> Seq<char> {
    pipeline_head() + uri + pipeline_tail()
}

/// The name under which the application sink stands in the pipeline.
pub open spec fn spec_app_sink_name() -> Seq<char> {
    "app_sink"@
}

/// The launch description names the media it plays: two different URIs never give the same
/// description.
pub proof fn law_description_determines_uri(a: Seq<char>, b: Seq<char>)
    ensures
        spec_pipeline_description(a) == spec_pipeline_description(b) ==> a == b,
{
    if spec_pipeline_description(a) == spec_pipeline_description(b) {
        let da = spec_pipeline_description(a);
        let db = spec_pipeline_description(b);
        let h = pipeline_head().len();
        let t = pipeline_tail().len();
        assert(da.len() == h + a.len() + t);
        assert(a =~= da.subrange(h as int, (h + a.len()) as int));
        assert(b =~= db.subrange(h as int, (h + b.len()) as int));
    }
}

/// Builds the launch description of the pipeline that plays the media at `uri`.
pub fn pipeline_description(uri: &str) -> (desc: String)
    ensures
        desc@ == spec_pipeline_description(uri@),
{
    proof {
        reveal_strlit("playbin uri=\"");
        reveal_strlit("\" video-sink=\"videoconvert ! videoscale ! appsink name=app_sink caps=video/x-raw,format=RGBA,pixel-aspect-ratio=1/1\"");
    }
    let desc = String::from_str("playbin uri=\"").concat(uri);
    desc.concat("\" video-sink=\"videoconvert ! videoscale ! appsink name=app_sink caps=video/x-raw,format=RGBA,pixel-aspect-ratio=1/1\"")
}

/// The name under which the application sink stands in the pipeline that
/// `pipeline_description` builds.
pub fn app_sink_name() -> (name: &'static str)
    ensures
        name@ == spec_app_sink_name(),
{
    proof {
        reveal_strlit("app_sink");
    }
    "app_sink"
}

#[verifier::external_type_specification]
#[verifier::external_body]
pub struct ExUrl(url::Url);

/// The text of a URL: its serialization.
pub uninterp spec fn url_serialization(uri: url::Url) -> Seq<char>;

/// Calls `url::Url::as_str`, which hands back the serialization of the URL; the result is
/// named by `url_serialization`.
#[verifier::external_body]
fn url_as_str(uri: &url::Url) -> (text: &str)
    ensures
        text@ == url_serialization(*uri),
{
    uri.as_str()
}

/// Builds the launch description of the pipeline that plays the media at `uri`.
pub fn pipeline_description_for_url(uri: &url::Url) -> (desc: String)
    ensures
        desc@ == spec_pipeline_description(url_serialization(*uri)),
{
    let text = url_as_str(uri);
    pipeline_description(text)
}

/// The states of a playback pipeline.
#[derive(Debug, Clone, Copy, PartialEq, Eq, Structural)]
pub enum PipelineState {
    VoidPending,
    Null,
    Ready,
    Paused,
    Playing,
}

/// The pipeline state that asking for `paused` playback leads to.
pub open spec fn spec_target_state(paused: bool) -> PipelineState {
    if paused {
        PipelineState::Paused
    } else {
        PipelineState::Playing
    }
}

/// The pipeline state that asking for `paused` playback leads to.
pub fn target_state(paused: bool) -> (state: PipelineState)
    ensures
        state == spec_target_state(paused),
{
    if paused {
        PipelineState::Paused
    } else {
        PipelineState::Playing
    }
}

/// The state a freshly opened stream is left in: paused, so that playback starts only when
/// it is asked for. Pausing prerolls the pipeline, so the stream's capabilities can be read.
pub fn opening_state() -> (state: PipelineState)
    ensures
        state == PipelineState::Paused,
{
    PipelineState::Paused
}

/// Whether the length of a stream must be asked of the pipeline: a live stream has none.
pub fn duration_query_needed(live: bool) -> (needed: bool)
    ensures
        needed == !live,
{
    !live
}

} // verus!
