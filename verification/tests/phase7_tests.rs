//! Local inference tests of the mock host.
use sandos::abi::{InferenceResult, INFERENCE_RESULT_SIZE};
use sandos::mock_host::{run_stub_inference, MockHost};

#[test]
fn inference_result_inactive_by_default() {
    let host = MockHost::default();
    assert!(!host.inference_result.active);
    assert_eq!(host.inference_result.top_class, 0);
    assert_eq!(host.inference_result.confidence_pct, 0);
}

#[test]
fn get_local_inference_writes_inactive_result_by_default() {
    let host = MockHost::default();
    let mut out = [0u8; INFERENCE_RESULT_SIZE as usize];
    let status = host.get_local_inference(&mut out);
    assert_eq!(status, sandos::abi::status::OK);
    let result = InferenceResult::from_bytes(&out).expect("must decode");
    assert!(!result.active);
    assert_eq!(result.top_class, 0);
    assert_eq!(result.confidence_pct, 0);
}

#[test]
fn get_local_inference_returns_set_result() {
    let mut host = MockHost::default();
    host.inference_result = InferenceResult {
        active: true,
        top_class: 3,
        confidence_pct: 87,
    };
    let mut out = [0u8; INFERENCE_RESULT_SIZE as usize];
    host.get_local_inference(&mut out);
    let result = InferenceResult::from_bytes(&out).expect("must decode");
    assert!(result.active);
    assert_eq!(result.top_class, 3);
    assert_eq!(result.confidence_pct, 87);
}

#[test]
fn get_local_inference_short_buffer_returns_err_bounds() {
    let host = MockHost::default();
    let mut short = [0u8; 8]; // needs 12 bytes
    assert_eq!(
        host.get_local_inference(&mut short),
        sandos::abi::status::ERR_BOUNDS
    );
}

#[test]
fn radio_link_alive_by_default() {
    let host = MockHost::default();
    assert!(host.is_radio_link_alive());
}

#[test]
fn radio_link_can_be_set_to_silent() {
    let mut host = MockHost::default();
    host.radio_link_alive = false;
    assert!(!host.is_radio_link_alive());
}

#[test]
fn radio_link_restored_after_setting_to_alive() {
    let mut host = MockHost::default();
    host.radio_link_alive = false;
    host.radio_link_alive = true;
    assert!(host.is_radio_link_alive());
}

#[test]
fn fallback_inference_no_snapshot_returns_false() {
    let mut host = MockHost::default();
    assert!(!host.run_fallback_inference());
    assert!(!host.inference_result.active);
}

#[test]
fn fallback_inference_with_snapshot_returns_true() {
    let mut host = MockHost::default();
    let samples: Vec<i8> = vec![10, -20, 30, -40, 50];
    host.push_audio_for_inference(samples);
    assert!(host.run_fallback_inference());
}

#[test]
fn fallback_inference_activates_result() {
    let mut host = MockHost::default();
    let samples: Vec<i8> = vec![100i8; 64]; // all 100 → same top_byte
    host.push_audio_for_inference(samples.clone());
    host.run_fallback_inference();
    assert!(host.inference_result.active);
}

#[test]
fn fallback_inference_with_uniform_samples_produces_deterministic_result() {
    let mut host = MockHost::default();
    // All samples are 100 → top_byte = 100, top_class = 100 % 8 = 4
    // mean_abs = 100, confidence_pct = (100 * 100) / 127 = 78
    let samples: Vec<i8> = vec![100i8; 128];
    host.push_audio_for_inference(samples.clone());
    host.run_fallback_inference();

    let expected = run_stub_inference(&samples);
    assert_eq!(host.inference_result, expected);
    assert_eq!(host.inference_result.top_class, 4);
    assert_eq!(host.inference_result.confidence_pct, 78);
}

#[test]
fn fallback_inference_empty_tensor_leaves_result_inactive() {
    let mut host = MockHost::default();
    host.push_audio_for_inference(vec![]);
    host.run_fallback_inference();
    assert!(!host.inference_result.active);
}

#[test]
fn fallback_inference_drains_queue_one_at_a_time() {
    let mut host = MockHost::default();
    host.push_audio_for_inference(vec![10i8; 32]);
    host.push_audio_for_inference(vec![20i8; 32]);

    // First call drains snapshot 1.
    assert!(host.run_fallback_inference());
    assert_eq!(host.audio_inference_queue.len(), 1);

    // Second call drains snapshot 2.
    assert!(host.run_fallback_inference());
    assert!(host.audio_inference_queue.is_empty());

    // Third call: queue empty.
    assert!(!host.run_fallback_inference());
}

#[test]
fn push_audio_for_inference_stores_snapshot() {
    let mut host = MockHost::default();
    let samples: Vec<i8> = vec![1, 2, 3, -1, -2];
    host.push_audio_for_inference(samples.clone());
    assert_eq!(host.audio_inference_queue.len(), 1);
    assert_eq!(host.audio_inference_queue[0], samples);
}

#[test]
fn stub_inference_empty_input_is_inactive() {
    let result = run_stub_inference(&[]);
    assert!(!result.active);
    assert_eq!(result.top_class, 0);
    assert_eq!(result.confidence_pct, 0);
}

#[test]
fn stub_inference_single_sample() {
    let result = run_stub_inference(&[64i8]);
    assert!(result.active);
    // top_byte = 64 → top_class = 64 % 8 = 0
    assert_eq!(result.top_class, 0);
    // mean_abs = 64, confidence_pct = (64 * 100) / 127 = 50
    assert_eq!(result.confidence_pct, 50);
}

#[test]
fn stub_inference_all_zeros() {
    let result = run_stub_inference(&[0i8; 16]);
    assert!(result.active);
    assert_eq!(result.confidence_pct, 0);
}

#[test]
fn stub_inference_max_samples() {
    let samples = vec![127i8; sandos::abi::INFERENCE_TENSOR_SIZE];
    let result = run_stub_inference(&samples);
    assert!(result.active);
    // top_byte = 127 → 127 % 8 = 7
    assert_eq!(result.top_class, 7);
    // mean_abs = 127 → confidence_pct = (127 * 100) / 127 = 100
    assert_eq!(result.confidence_pct, 100);
}

#[test]
fn stub_inference_result_pack_unpack_identity() {
    let sent = InferenceResult {
        active: true,
        top_class: 5,
        confidence_pct: 63,
    };
    let packed = sent.pack();
    let unpacked = InferenceResult::unpack(packed);
    assert_eq!(unpacked, sent);
}
