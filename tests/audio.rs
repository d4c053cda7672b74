use media_example::audio::{enqueue_audio_samples, interleave_channels, ExampleAudioRenderer};

#[test]
fn interleaving_keeps_channel_order() {
    let input = vec![vec![1.0f32, 2.0, 3.0], vec![10.0f32, 20.0, 30.0]];
    let out = interleave_channels(&input, 2);
    assert_eq!(out, vec![1.0, 10.0, 2.0, 20.0, 3.0, 30.0]);
    for i in 0..3 {
        for c in 0..2 {
            assert_eq!(out[i * 2 + c], input[c][i]);
        }
    }
}

#[test]
fn extra_channels_are_dropped() {
    let input = vec![vec![1i32, 2], vec![3, 4], vec![5, 6]];
    let mut r = ExampleAudioRenderer::new();
    enqueue_audio_samples(&mut r, 6, &input);
    assert_eq!(r.pending_len(), 4);
    let mut out = [0i32; 4];
    r.callback(&mut out, 0);
    assert_eq!(out, [1, 3, 2, 4]);
}

#[test]
fn mono_device_takes_first_channel() {
    let input = vec![vec![7u8, 8, 9], vec![1, 1, 1]];
    let mut r = ExampleAudioRenderer::new();
    enqueue_audio_samples(&mut r, 1, &input);
    let mut out = [0u8; 3];
    r.callback(&mut out, 0);
    assert_eq!(out, [7, 8, 9]);
}

#[test]
fn enqueue_appends_after_queued_samples() {
    let mut r = ExampleAudioRenderer::new();
    enqueue_audio_samples(&mut r, 2, &vec![vec![1i16], vec![2]]);
    enqueue_audio_samples(&mut r, 2, &vec![vec![3i16, 5], vec![4, 6]]);
    assert_eq!(r.pending_len(), 6);
    let mut out = [0i16; 6];
    r.callback(&mut out, 0);
    assert_eq!(out, [1, 2, 3, 4, 5, 6]);
}

#[test]
fn underrun_fills_rest_with_silence() {
    let mut r = ExampleAudioRenderer::new();
    let pending: Vec<f32> = (1..=40).map(|i| i as f32).collect();
    enqueue_audio_samples(&mut r, 1, &vec![pending.clone()]);
    let mut out = [7.5f32; 100];
    r.callback(&mut out, 0.0);
    assert_eq!(&out[..40], &pending[..]);
    assert!(out[40..].iter().all(|v| *v == 0.0));
    assert_eq!(r.pending_len(), 0);
}

#[test]
fn surplus_samples_stay_queued() {
    let mut r = ExampleAudioRenderer::new();
    enqueue_audio_samples(&mut r, 1, &vec![vec![1u32, 2, 3, 4, 5]]);
    let mut out = [0u32; 3];
    r.callback(&mut out, 0);
    assert_eq!(out, [1, 2, 3]);
    assert_eq!(r.pending_len(), 2);
    let mut out = [9u32; 3];
    r.callback(&mut out, 0);
    assert_eq!(out, [4, 5, 0]);
    assert_eq!(r.pending_len(), 0);
}

#[test]
fn empty_queue_plays_silence() {
    let mut r: ExampleAudioRenderer<i32> = ExampleAudioRenderer::new();
    let mut out = [3i32; 4];
    r.callback(&mut out, -1);
    assert_eq!(out, [-1, -1, -1, -1]);
    let mut none: [i32; 0] = [];
    r.callback(&mut none, 0);
    assert_eq!(r.pending_len(), 0);
}
