//! The transactions that a window sends to the compositor.
//!
//! A transaction is a list of scene operations together with a flag that asks
//! for a new frame. The two transactions of a window are built here; sending
//! them over the compositor's channel is left to the caller.
use vstd::prelude::*;
use webrender_api::{
    BuiltDisplayList, ColorF, DeviceIntPoint, DeviceIntRect, DeviceIntSize, DisplayListBuilder,
    Epoch, LayoutSize, LayoutToDeviceScale, PipelineId, Transaction,
};

verus! {

#[verifier::external_type_specification]
#[verifier::external_body]
pub struct ExTransaction(webrender_api::Transaction);

#[verifier::external_type_specification]
#[verifier::external_body]
pub struct ExBuiltDisplayList(webrender_api::BuiltDisplayList);

#[verifier::external_type_specification]
#[verifier::external_body]
pub struct ExEpoch(webrender_api::Epoch);

#[verifier::external_type_specification]
#[verifier::external_body]
pub struct ExDisplayListBuilder(webrender_api::DisplayListBuilder);

#[verifier::external_type_specification]
#[verifier::external_body]
pub struct ExPipelineId(webrender_api::PipelineId);

#[verifier::external_type_specification]
#[verifier::external_body]
pub struct ExColorF(webrender_api::ColorF);

#[verifier::external_type_specification]
#[verifier::external_body]
pub struct ExLayoutPixel(webrender_api::LayoutPixel);

#[verifier::external_type_specification]
#[verifier::external_body]
pub struct ExDevicePixel(webrender_api::DevicePixel);

#[verifier::external_type_specification]
#[verifier::external_body]
#[verifier::reject_recursive_types(T)]
#[verifier::reject_recursive_types(U)]
pub struct ExTypedSize2D<T, U>(webrender_api::euclid::TypedSize2D<T, U>);

#[verifier::external_type_specification]
#[verifier::external_body]
#[verifier::reject_recursive_types(T)]
#[verifier::reject_recursive_types(Src)]
#[verifier::reject_recursive_types(Dst)]
pub struct ExTypedScale<T, Src, Dst>(webrender_api::euclid::TypedScale<T, Src, Dst>);

/// What a display list tells beside its display items.
pub struct ListDescriptor {
    /// When it was begun.
    pub start_time: u64,
    /// When it was finished.
    pub finish_time: u64,
    /// The clip nodes that it creates.
    pub clip_nodes: usize,
    /// The spatial nodes that it creates, with the two that are always there.
    pub spatial_nodes: usize,
}

/// One operation on the scene of a document.
pub enum SceneOp {
    /// Show the display list with these bytes and this descriptor in a pipeline.
    SetDisplayList {
        epoch: Epoch,
        background: Option<ColorF>,
        viewport_size: LayoutSize,
        pipeline_id: PipelineId,
        content_size: LayoutSize,
        display_list: Seq<u8>,
        descriptor: ListDescriptor,
        preserve_frame_state: bool,
    },
    /// Make a pipeline the root of the document.
    SetRootPipeline(PipelineId),
    /// Tell the compositor the size and the scale of the window.
    SetWindowParameters {
        window_size: (i32, i32),
        inner_origin: (i32, i32),
        inner_size: (i32, i32),
        device_pixel_ratio: LayoutToDeviceScale,
    },
}

/// The scene operations that a transaction holds, in the order in which they were added.
pub uninterp spec fn scene_ops(txn: Transaction) -> Seq<SceneOp>;

/// Whether a transaction asks for a new frame.
pub uninterp spec fn asks_for_frame(txn: Transaction) -> bool;

/// The encoded display items of a display list.
pub uninterp spec fn list_bytes(list: BuiltDisplayList) -> Seq<u8>;

/// The descriptor of a display list, without the time at which it is sent.
pub uninterp spec fn list_descriptor(list: BuiltDisplayList) -> ListDescriptor;

/// The encoded display items that a builder holds so far.
pub uninterp spec fn builder_bytes(builder: DisplayListBuilder) -> Seq<u8>;

/// The pipeline that a builder builds for.
pub uninterp spec fn builder_pipeline(builder: DisplayListBuilder) -> PipelineId;

/// The size of the content that a builder builds for.
pub uninterp spec fn builder_size(builder: DisplayListBuilder) -> LayoutSize;

/// When a builder was made.
pub uninterp spec fn builder_start(builder: DisplayListBuilder) -> u64;

/// The clip nodes and the spatial nodes of a builder so far.
pub uninterp spec fn builder_nodes(builder: DisplayListBuilder) -> (usize, usize);

/// Whether the state of a builder was saved, and the save neither restored nor cleared.
pub uninterp spec fn has_pending_save(builder: DisplayListBuilder) -> bool;

/// `webrender_api::DisplayListBuilder::new`: a builder for this pipeline and this size, without
/// display items, clip nodes and saves, and with the two spatial nodes that are always there. The
/// time stamp that it takes is left unsaid.
pub assume_specification[ webrender_api::DisplayListBuilder::new ](
    pipeline_id: PipelineId,
    content_size: LayoutSize,
) -> (builder: webrender_api::DisplayListBuilder)
    ensures
        builder_pipeline(builder) == pipeline_id,
        builder_size(builder) == content_size,
        builder_bytes(builder) == Seq::<u8>::empty(),
        builder_nodes(builder) == (0usize, 2usize),
        !has_pending_save(builder),
;

/// `webrender_api::DisplayListBuilder::finalize`: the pipeline and the size that the builder builds
/// for, and a display list with the display items that it holds, its nodes and the time at which it
/// was made. It panics where a save is pending. The time stamp that it takes at the end is left
/// unsaid.
pub assume_specification[ webrender_api::DisplayListBuilder::finalize ](
    builder: webrender_api::DisplayListBuilder,
) -> (built: (PipelineId, LayoutSize, webrender_api::BuiltDisplayList))
    requires
        !has_pending_save(builder),
    ensures
        built.0 == builder_pipeline(builder),
        built.1 == builder_size(builder),
        list_bytes(built.2) == builder_bytes(builder),
        list_descriptor(built.2).start_time == builder_start(builder),
        list_descriptor(built.2).clip_nodes == builder_nodes(builder).0,
        list_descriptor(built.2).spatial_nodes == builder_nodes(builder).1,
;

/// `webrender_api::Transaction::new`: a transaction without scene operations that asks for no
/// frame.
#[verifier::external_body]
fn transaction_new() -> (txn: Transaction)
    ensures
        scene_ops(txn) == Seq::<SceneOp>::empty(),
        !asks_for_frame(txn),
{
    Transaction::new()
}

/// `webrender_api::Transaction::set_display_list`: one operation goes to the end of the scene
/// operations, with exactly these arguments, the bytes of the display list and its descriptor. The
/// time stamp of the sending, which it puts into the descriptor, is left unsaid.
#[verifier::external_body]
fn transaction_set_display_list(
    txn: &mut Transaction,
    epoch: Epoch,
    background: Option<ColorF>,
    viewport_size: LayoutSize,
    pipeline_id: PipelineId,
    content_size: LayoutSize,
    display_list: BuiltDisplayList,
    preserve_frame_state: bool,
)
    ensures
        scene_ops(*final(txn)) == scene_ops(*old(txn)).push(
            (SceneOp::SetDisplayList {
                epoch,
                background,
                viewport_size,
                pipeline_id,
                content_size,
                display_list: list_bytes(display_list),
                descriptor: list_descriptor(display_list),
                preserve_frame_state,
            }),
        ),
        asks_for_frame(*final(txn)) == asks_for_frame(*old(txn)),
{
    let content = (pipeline_id, content_size, display_list);
    txn.set_display_list(epoch, background, viewport_size, content, preserve_frame_state)
}

/// `webrender_api::Transaction::set_root_pipeline`: one operation that names the pipeline goes to
/// the end of the scene operations.
#[verifier::external_body]
fn transaction_set_root_pipeline(txn: &mut Transaction, pipeline_id: PipelineId)
    ensures
        scene_ops(*final(txn)) == scene_ops(*old(txn)).push(SceneOp::SetRootPipeline(pipeline_id)),
        asks_for_frame(*final(txn)) == asks_for_frame(*old(txn)),
{
    txn.set_root_pipeline(pipeline_id)
}

/// `webrender_api::Transaction::set_window_parameters`: one operation with the window's size, the
/// origin and size of the inner rectangle and the pixel ratio goes to the end of the scene
/// operations.
#[verifier::external_body]
fn transaction_set_window_parameters(
    txn: &mut Transaction,
    window_size: (i32, i32),
    inner_origin: (i32, i32),
    inner_size: (i32, i32),
    device_pixel_ratio: LayoutToDeviceScale,
)
    ensures
        scene_ops(*final(txn)) == scene_ops(*old(txn)).push(
            (SceneOp::SetWindowParameters {
                window_size,
                inner_origin,
                inner_size,
                device_pixel_ratio,
            }),
        ),
        asks_for_frame(*final(txn)) == asks_for_frame(*old(txn)),
{
    let size = DeviceIntSize::new(window_size.0, window_size.1);
    let origin = DeviceIntPoint::new(inner_origin.0, inner_origin.1);
    let inner = DeviceIntRect::new(origin, DeviceIntSize::new(inner_size.0, inner_size.1));
    txn.set_window_parameters(size, inner, device_pixel_ratio.get())
}

/// `<webrender_api::BuiltDisplayList as Clone>::clone`: a display list with the same bytes
/// and the same descriptor.
#[verifier::external_body]
fn display_list_clone(list: &BuiltDisplayList) -> (copy: BuiltDisplayList)
    ensures
        list_bytes(copy) == list_bytes(*list),
        list_descriptor(copy) == list_descriptor(*list),
{
    list.clone()
}

/// `webrender_api::Transaction::generate_frame`: the transaction asks for a frame; its scene
/// operations stay.
#[verifier::external_body]
fn transaction_generate_frame(txn: &mut Transaction)
    ensures
        scene_ops(*final(txn)) == scene_ops(*old(txn)),
        asks_for_frame(*final(txn)),
{
    txn.generate_frame()
}

/// The scene operations that put the size and the scale of a window in force: the visible
/// rectangle starts in the corner and covers the whole framebuffer.
pub open spec fn window_ops(
    framebuffer_size: (i32, i32),
    hidpi_factor: LayoutToDeviceScale,
) -> Seq<SceneOp> {
    seq![
        (SceneOp::SetWindowParameters {
            window_size: framebuffer_size,
            inner_origin: (0, 0),
            inner_size: framebuffer_size,
            device_pixel_ratio: hidpi_factor,
        }),
    ]
}

/// The scene operations that draw a display list: it is set without a background, the frame state
/// of the pipeline is kept, and the pipeline becomes the root.
pub open spec fn frame_ops(
    epoch: Epoch,
    layout_size: LayoutSize,
    pipeline_id: PipelineId,
    content_size: LayoutSize,
    display_list: Seq<u8>,
    descriptor: ListDescriptor,
) -> Seq<SceneOp> {
    seq![
        (SceneOp::SetDisplayList {
            epoch,
            background: None,
            viewport_size: layout_size,
            pipeline_id,
            content_size,
            display_list,
            descriptor,
            preserve_frame_state: true,
        }),
        SceneOp::SetRootPipeline(pipeline_id),
    ]
}

/// Builds the transaction that tells the compositor about the current size of a window.
pub fn update_display(
    framebuffer_size: (i32, i32),
    hidpi_factor: LayoutToDeviceScale,
) -> (txn: Transaction)
    ensures
        scene_ops(txn) == window_ops(framebuffer_size, hidpi_factor),
        !asks_for_frame(txn),
{
    let mut txn = transaction_new();
    transaction_set_window_parameters(
        &mut txn,
        framebuffer_size,
        (0, 0),
        framebuffer_size,
        hidpi_factor,
    );
    txn
}

/// Starts a display list, to be filled with what a window shows.
pub fn new_display_list(pipeline_id: PipelineId, content_size: LayoutSize) -> (builder:
    DisplayListBuilder)
    ensures
        builder_pipeline(builder) == pipeline_id,
        builder_size(builder) == content_size,
        builder_bytes(builder) == Seq::<u8>::empty(),
        builder_nodes(builder) == (0usize, 2usize),
        !has_pending_save(builder),
{
    DisplayListBuilder::new(pipeline_id, content_size)
}

/// Whether a list is what a builder was finalized to.
pub open spec fn is_finalized(builder: DisplayListBuilder, list: BuiltDisplayList) -> bool {
    call_ensures(
        DisplayListBuilder::finalize,
        (builder,),
        (builder_pipeline(builder), builder_size(builder), list),
    )
}

/// Whether a list holds what a builder holds: its display items, its nodes and the time at which it
/// was made.
pub open spec fn holds_what(builder: DisplayListBuilder, list: BuiltDisplayList) -> bool {
    &&& list_bytes(list) == builder_bytes(builder)
    &&& list_descriptor(list).start_time == builder_start(builder)
    &&& list_descriptor(list).clip_nodes == builder_nodes(builder).0
    &&& list_descriptor(list).spatial_nodes == builder_nodes(builder).1
}

/// Builds the transaction that draws a window.
///
/// `last_display_list` is what the window drew last. It is replaced, by the list that the builder is
/// finalized to, only where the layout produced a new builder; otherwise the last one is drawn
/// again.
pub fn render(
    last_display_list: &mut BuiltDisplayList,
    new_builder: Option<DisplayListBuilder>,
    epoch: Epoch,
    layout_size: LayoutSize,
    pipeline_id: PipelineId,
    content_size: LayoutSize,
) -> (txn: Transaction)
    requires
        new_builder matches Some(builder) ==> !has_pending_save(builder),
    ensures
        match new_builder {
            Some(builder) => is_finalized(builder, *final(last_display_list)) && holds_what(
                builder,
                *final(last_display_list),
            ),
            None => *final(last_display_list) == *old(last_display_list),
        },
        scene_ops(txn) == frame_ops(
            epoch,
            layout_size,
            pipeline_id,
            content_size,
            list_bytes(*final(last_display_list)),
            list_descriptor(*final(last_display_list)),
        ),
        asks_for_frame(txn),
{
    if let Some(builder) = new_builder {
        let (_, _, list) = builder.finalize();
        *last_display_list = list;
    }
    let mut txn = transaction_new();
    let list = display_list_clone(last_display_list);
    transaction_set_display_list(
        &mut txn,
        epoch,
        None,
        layout_size,
        pipeline_id,
        content_size,
        list,
        true,
    );
    transaction_set_root_pipeline(&mut txn, pipeline_id);
    transaction_generate_frame(&mut txn);
    txn
}

/// The compositor is told the size and the scale that the window has, and that all of it is visible:
/// the visible rectangle starts in the corner and is as large as the window. It is told nothing
/// else.
pub proof fn law_all_of_a_window_is_visible(
    framebuffer_size: (i32, i32),
    hidpi_factor: LayoutToDeviceScale,
)
    ensures
        window_ops(framebuffer_size, hidpi_factor).len() == 1,
        window_ops(framebuffer_size, hidpi_factor)[0] matches SceneOp::SetWindowParameters {
            window_size,
            inner_origin,
            inner_size,
            device_pixel_ratio,
        } && window_size == framebuffer_size && inner_origin.0 == 0 && inner_origin.1 == 0
            && inner_size == framebuffer_size && device_pixel_ratio == hidpi_factor,
{
}

/// A frame shows the whole display list, its bytes and its descriptor, without a background and
/// with the frame state kept, in the very pipeline that then becomes the root. Nothing else is done
/// to the scene.
pub proof fn law_a_frame_shows_the_whole_display_list(
    epoch: Epoch,
    layout_size: LayoutSize,
    pipeline_id: PipelineId,
    content_size: LayoutSize,
    display_list: Seq<u8>,
    descriptor: ListDescriptor,
)
    ensures
        ({
            let ops = frame_ops(
                epoch,
                layout_size,
                pipeline_id,
                content_size,
                display_list,
                descriptor,
            );
            &&& ops.len() == 2
            &&& ops[0] matches SceneOp::SetDisplayList {
                epoch: e,
                background,
                viewport_size,
                pipeline_id: shown_in,
                content_size: content,
                display_list: bytes,
                descriptor: told,
                preserve_frame_state,
            } && e == epoch && background is None && viewport_size == layout_size && shown_in
                == pipeline_id && content == content_size && bytes == display_list && told
                == descriptor && preserve_frame_state
            &&& ops[1] == SceneOp::SetRootPipeline(pipeline_id)
        }),
{
}

/// A list that a builder was finalized to has the display items of the builder, its nodes and the
/// time at which it was made, and a list that holds what the builder holds has them as well.
pub proof fn law_a_finalized_list_holds_what_its_builder_held(
    builder: DisplayListBuilder,
    list: BuiltDisplayList,
)
    ensures
        is_finalized(builder, list) || holds_what(builder, list) ==> {
            &&& list_bytes(list) == builder_bytes(builder)
            &&& list_descriptor(list).start_time == builder_start(builder)
            &&& list_descriptor(list).clip_nodes == builder_nodes(builder).0
            &&& list_descriptor(list).spatial_nodes == builder_nodes(builder).1
        },
{
}

} // verus!
