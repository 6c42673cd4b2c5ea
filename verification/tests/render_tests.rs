use gallery_app::render::{DrawBatch, FrameRenderer, RenderError, RenderStep};

fn batch(texture: u64) -> DrawBatch {
    DrawBatch { texture }
}

#[test]
fn uploads_precede_draws_that_reference_them() {
    let mut r = FrameRenderer::new();
    let plan = r.plan_frame(&vec![7], &vec![], &vec![batch(7)]).unwrap();
    assert_eq!(
        plan.steps,
        vec![
            RenderStep::UploadTexture(7),
            RenderStep::UploadBuffers,
            RenderStep::Draw(batch(7)),
        ]
    );
    let upload_at = plan
        .steps
        .iter()
        .position(|s| *s == RenderStep::UploadTexture(7))
        .unwrap();
    let draw_at = plan.steps.iter().position(|s| matches!(s, RenderStep::Draw(_))).unwrap();
    assert!(upload_at < draw_at);
}

#[test]
fn deltas_apply_before_all_draws_in_given_order() {
    let mut r = FrameRenderer::new();
    let plan = r
        .plan_frame(&vec![1, 2], &vec![], &vec![batch(2), batch(1)])
        .unwrap();
    assert_eq!(
        plan.steps,
        vec![
            RenderStep::UploadTexture(1),
            RenderStep::UploadTexture(2),
            RenderStep::UploadBuffers,
            RenderStep::Draw(batch(2)),
            RenderStep::Draw(batch(1)),
        ]
    );
}

#[test]
fn buffer_upload_stands_after_textures_and_before_every_draw() {
    let mut r = FrameRenderer::new();
    let plan = r
        .plan_frame(&vec![1, 2], &vec![], &vec![batch(1), batch(2)])
        .unwrap();
    let buffers_at = plan
        .steps
        .iter()
        .position(|s| *s == RenderStep::UploadBuffers)
        .unwrap();
    for (i, step) in plan.steps.iter().enumerate() {
        match step {
            RenderStep::UploadTexture(_) | RenderStep::FreeTexture(_) => assert!(i < buffers_at),
            RenderStep::UploadBuffers => assert_eq!(i, buffers_at),
            RenderStep::Draw(_) => assert!(buffers_at < i),
        }
    }
}

#[test]
fn unreferenced_texture_fails_the_frame_and_changes_nothing() {
    let mut r = FrameRenderer::new();
    let err = r.plan_frame(&vec![], &vec![], &vec![batch(9)]).unwrap_err();
    assert_eq!(err, RenderError::MissingTexture(9));
    assert_eq!(r.resident, Vec::<u64>::new());
}

#[test]
fn uploaded_textures_stay_resident_for_later_frames() {
    let mut r = FrameRenderer::new();
    r.plan_frame(&vec![1, 2], &vec![], &vec![batch(1)]).unwrap();
    assert_eq!(r.resident, vec![1, 2]);
    let plan = r.plan_frame(&vec![], &vec![], &vec![batch(2)]).unwrap();
    assert_eq!(plan.steps, vec![RenderStep::UploadBuffers, RenderStep::Draw(batch(2))]);
}

#[test]
fn freed_texture_cannot_be_referenced() {
    let mut r = FrameRenderer::new();
    r.plan_frame(&vec![1], &vec![], &vec![]).unwrap();
    let err = r.plan_frame(&vec![], &vec![1], &vec![batch(1)]).unwrap_err();
    assert_eq!(err, RenderError::MissingTexture(1));
}

#[test]
fn freed_texture_leaves_the_resident_set() {
    let mut r = FrameRenderer::new();
    r.plan_frame(&vec![1, 2], &vec![], &vec![]).unwrap();
    let plan = r.plan_frame(&vec![], &vec![1], &vec![batch(2)]).unwrap();
    assert_eq!(
        plan.steps,
        vec![
            RenderStep::FreeTexture(1),
            RenderStep::UploadBuffers,
            RenderStep::Draw(batch(2)),
        ]
    );
    assert_eq!(r.resident, vec![2]);
    let err = r.plan_frame(&vec![], &vec![], &vec![batch(1)]).unwrap_err();
    assert_eq!(err, RenderError::MissingTexture(1));
}

#[test]
fn reuploading_a_freed_texture_makes_it_drawable_again() {
    let mut r = FrameRenderer::new();
    r.plan_frame(&vec![5], &vec![], &vec![batch(5)]).unwrap();
    r.plan_frame(&vec![], &vec![5], &vec![]).unwrap();
    let plan = r.plan_frame(&vec![5], &vec![], &vec![batch(5)]).unwrap();
    assert_eq!(
        plan.steps,
        vec![
            RenderStep::UploadTexture(5),
            RenderStep::UploadBuffers,
            RenderStep::Draw(batch(5)),
        ]
    );
}
