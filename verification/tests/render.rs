//! The transactions that arrive at the compositor.
use azul::render::{new_display_list, render, update_display};
use webrender_api::channel::{msg_channel, payload_channel, PayloadReceiver, PayloadReceiverHelperMethods};
use webrender_api::channel::MsgReceiver;
use webrender_api::{
    ApiMsg, BuiltDisplayList, BuiltDisplayListDescriptor, DeviceIntPoint, DeviceIntRect,
    DeviceIntSize, DisplayListBuilder, DocumentId, Epoch, IdNamespace, LayoutPoint, LayoutRect,
    LayoutSize, LayoutToDeviceScale, PipelineId,
    RenderApi, RenderApiSender, SceneMsg, Transaction, TransactionMsg,
};

struct Compositor {
    api: RenderApi,
    messages: MsgReceiver<ApiMsg>,
    payloads: PayloadReceiver,
}

fn compositor() -> Compositor {
    let (message_sender, messages) = msg_channel().unwrap();
    let (payload_sender, payloads) = payload_channel().unwrap();
    let api = RenderApiSender::new(message_sender, payload_sender)
        .create_api_by_client(IdNamespace(1));
    assert!(matches!(messages.recv(), Ok(ApiMsg::CloneApiByClient(_))));
    Compositor { api, messages, payloads }
}

impl Compositor {
    fn send(&self, txn: Transaction) -> TransactionMsg {
        self.api.send_transaction(DocumentId(IdNamespace(1), 1), txn);
        match self.messages.recv() {
            Ok(ApiMsg::UpdateDocument(_, msg)) => msg,
            _ => panic!("a transaction was sent"),
        }
    }
}

fn list(bytes: &[u8]) -> BuiltDisplayList {
    BuiltDisplayList::from_data(bytes.to_vec(), BuiltDisplayListDescriptor::default())
}

#[test]
fn the_size_of_a_window_is_sent() {
    let msg = compositor().send(update_display((800, 600), LayoutToDeviceScale::new(1.5)));
    assert_eq!(msg.scene_ops.len(), 1);
    match &msg.scene_ops[0] {
        SceneMsg::SetWindowParameters { window_size, inner_rect, device_pixel_ratio } => {
            assert_eq!(*window_size, DeviceIntSize::new(800, 600));
            let corner = DeviceIntPoint::new(0, 0);
            assert_eq!(*inner_rect, DeviceIntRect::new(corner, DeviceIntSize::new(800, 600)));
            assert_eq!(*device_pixel_ratio, 1.5);
        },
        _ => panic!("the wrong operation"),
    }
    assert!(!msg.generate_frame);
}

/// A builder that holds these bytes.
fn builder(bytes: &[u8]) -> DisplayListBuilder {
    let mut builder = new_display_list(PipelineId(1, 2), LayoutSize::new(40.0, 30.0));
    builder.data.extend_from_slice(bytes);
    builder
}

#[test]
fn a_new_display_list_is_empty() {
    let builder = new_display_list(PipelineId(3, 4), LayoutSize::new(10.0, 20.0));
    let (pipeline_id, content_size, list) = builder.finalize();
    assert_eq!(pipeline_id, PipelineId(3, 4));
    assert_eq!(content_size, LayoutSize::new(10.0, 20.0));
    assert!(list.data().is_empty());
    assert_eq!((list.total_clip_nodes(), list.total_spatial_nodes()), (0, 2));
}

fn draw(
    compositor: &Compositor,
    last: &mut BuiltDisplayList,
    new: Option<DisplayListBuilder>,
) -> BuiltDisplayList {
    let txn = render(
        last,
        new,
        Epoch(7),
        LayoutSize::new(80.0, 60.0),
        PipelineId(1, 2),
        LayoutSize::new(40.0, 30.0),
    );
    let msg = compositor.send(txn);
    assert_eq!(msg.scene_ops.len(), 2);
    let descriptor = match &msg.scene_ops[0] {
        SceneMsg::SetDisplayList {
            epoch,
            pipeline_id,
            background,
            viewport_size,
            content_size,
            list_descriptor,
            preserve_frame_state,
        } => {
            assert_eq!(*epoch, Epoch(7));
            assert_eq!(*pipeline_id, PipelineId(1, 2));
            assert!(background.is_none());
            assert_eq!(*viewport_size, LayoutSize::new(80.0, 60.0));
            assert_eq!(*content_size, LayoutSize::new(40.0, 30.0));
            assert!(*preserve_frame_state);
            *list_descriptor
        },
        _ => panic!("the wrong operation"),
    };
    match &msg.scene_ops[1] {
        SceneMsg::SetRootPipeline(pipeline_id) => assert_eq!(*pipeline_id, PipelineId(1, 2)),
        _ => panic!("the wrong operation"),
    }
    assert!(msg.generate_frame);
    let payload = compositor.payloads.recv_payload().unwrap();
    assert_eq!(payload.epoch, Epoch(7));
    BuiltDisplayList::from_data(payload.display_list_data, descriptor)
}

#[test]
fn the_last_display_list_is_drawn_until_there_is_a_new_one() {
    let compositor = compositor();
    let mut last = list(&[1, 2, 3]);
    assert_eq!(draw(&compositor, &mut last, None).data(), &[1, 2, 3]);
    assert_eq!(last.data(), &[1, 2, 3]);
    assert_eq!(draw(&compositor, &mut last, Some(builder(&[4, 5]))).data(), &[4, 5]);
    assert_eq!(last.data(), &[4, 5]);
    assert_eq!(draw(&compositor, &mut last, None).data(), &[4, 5]);
}

#[test]
fn the_descriptor_is_sent_along() {
    let compositor = compositor();
    let mut last = list(&[]);
    let mut filled = new_display_list(PipelineId(1, 2), LayoutSize::new(40.0, 30.0));
    let area = LayoutRect::new(LayoutPoint::new(0.0, 0.0), LayoutSize::new(4.0, 3.0));
    filled.define_clip(area, vec![], None);
    let sent = draw(&compositor, &mut last, Some(filled));
    assert!(!sent.data().is_empty());
    assert_eq!((sent.total_clip_nodes(), sent.total_spatial_nodes()), (1, 2));
    assert_eq!((last.total_clip_nodes(), last.total_spatial_nodes()), (1, 2));
    // The time of the sending is put in only then.
    assert_eq!((sent.times().0, sent.times().1), (last.times().0, last.times().1));
    assert_eq!(last.times().2, 0);
    let again = draw(&compositor, &mut last, None);
    assert_eq!(again.data(), sent.data());
    assert_eq!((again.times().0, again.times().1), (sent.times().0, sent.times().1));
    assert_eq!((again.total_clip_nodes(), again.total_spatial_nodes()), (1, 2));
}
