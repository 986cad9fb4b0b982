use inverse_sqrt::codec::{decode_words, encode_words};
use inverse_sqrt::device::{acquire, Capabilities};
use inverse_sqrt::dispatch::{buffer_size, plan_dispatch, record_commands, workgroup_count, Command};
use inverse_sqrt::error::ComputeError;
use inverse_sqrt::kernel::{entry_point, kernel_words, KernelBlobError, SPIRV_MAGIC};
use inverse_sqrt::pipeline::{BindingSlot, KernelInterface};
use inverse_sqrt::readback::{step, MapEvent, MapPhase, Readback};

fn bits(xs: &[f32]) -> Vec<u32> {
    xs.iter().map(|x| x.to_bits()).collect()
}

#[test]
fn encode_is_little_endian() {
    assert_eq!(encode_words(&[0x0403_0201, 0xddcc_bbaa]), vec![1, 2, 3, 4, 0xaa, 0xbb, 0xcc, 0xdd]);
    assert_eq!(encode_words(&[]), Vec::<u8>::new());
}

#[test]
fn decode_reads_whole_groups_only() {
    assert_eq!(decode_words(&[1, 2, 3, 4, 0xaa, 0xbb, 0xcc, 0xdd]), vec![0x0403_0201, 0xddcc_bbaa]);
    assert_eq!(decode_words(&[1, 2, 3, 4, 5, 6]), vec![0x0403_0201]);
    assert_eq!(decode_words(&[]), Vec::<u32>::new());
}

#[test]
fn scenario_values_round_trip_in_order() {
    let input = bits(&[4.0, 25.0, 100.0]);
    let bytes = encode_words(&input);
    assert_eq!(bytes.len(), 12);
    assert_eq!(&bytes[0..4], &4.0f32.to_le_bytes());
    let back = decode_words(&bytes);
    assert_eq!(back, input);
    let floats: Vec<f32> = back.into_iter().map(f32::from_bits).collect();
    assert_eq!(floats, vec![4.0, 25.0, 100.0]);
}

#[test]
fn zero_round_trips() {
    let input = bits(&[0.0]);
    assert_eq!(encode_words(&input), vec![0, 0, 0, 0]);
    assert_eq!(decode_words(&encode_words(&input)), input);
}

#[test]
fn large_input_round_trips() {
    let input: Vec<u32> = (1..i16::MAX).map(|i| f32::from(i).to_bits()).collect();
    assert_eq!(input.len(), 32766);
    let bytes = encode_words(&input);
    assert_eq!(bytes.len(), 4 * 32766);
    assert_eq!(decode_words(&bytes), input);
}

#[test]
fn workgroups_round_up() {
    assert_eq!(workgroup_count(0), 0);
    assert_eq!(workgroup_count(1), 1);
    assert_eq!(workgroup_count(3), 1);
    assert_eq!(workgroup_count(64), 1);
    assert_eq!(workgroup_count(65), 2);
    assert_eq!(workgroup_count(u32::MAX), 67_108_864);
}

#[test]
fn non_multiple_of_workgroup_overruns_buffer() {
    let groups = workgroup_count(32766);
    assert_eq!(groups, 512);
    assert!(groups * 64 > 32766);
}

#[test]
fn buffer_size_is_four_bytes_per_element() {
    assert_eq!(buffer_size(0), 0);
    assert_eq!(buffer_size(3), 12);
    assert_eq!(buffer_size(u32::MAX), 4 * u32::MAX as u64);
}

#[test]
fn commands_in_submission_order() {
    assert_eq!(
        record_commands(3),
        vec![
            Command::BeginComputePass,
            Command::SetBindGroup { index: 0 },
            Command::SetPipeline,
            Command::Dispatch { x: 1, y: 1, z: 1 },
            Command::EndComputePass,
            Command::CopyToStaging { size: 12 },
        ]
    );
    assert_eq!(record_commands(32766)[3], Command::Dispatch { x: 512, y: 1, z: 1 });
    assert_eq!(record_commands(32766)[5], Command::CopyToStaging { size: 131064 });
}

#[test]
fn plan_holds_bytes_count_and_commands() {
    let words = bits(&[4.0, 25.0, 100.0]);
    let plan = plan_dispatch(&words).unwrap();
    assert_eq!(plan.element_count, 3);
    assert_eq!(plan.bytes, encode_words(&words));
    assert_eq!(plan.commands, record_commands(3));
    let empty = plan_dispatch(&[]).unwrap();
    assert_eq!(empty.element_count, 0);
    assert!(empty.bytes.is_empty());
}

#[test]
fn kernel_blob_errors() {
    assert_eq!(kernel_words(&[3, 2, 35]), Err(KernelBlobError::Misaligned));
    assert_eq!(kernel_words(&[]), Err(KernelBlobError::Empty));
    assert_eq!(kernel_words(&[7, 35, 2, 3]), Err(KernelBlobError::NotSpirv));
}

#[test]
fn kernel_blob_words() {
    let blob = [3u8, 2, 0x23, 7, 0, 3, 1, 0, 9, 8, 7, 6];
    assert_eq!(kernel_words(&blob), Ok(vec![SPIRV_MAGIC, 0x0001_0300, 0x0607_0809]));
}

#[test]
fn kernel_interface_has_one_storage_slot() {
    assert_eq!(entry_point(), "main_cs");
    let k = KernelInterface::inverse_sqrt();
    assert_eq!(k.entry_point, "main_cs");
    assert_eq!(
        k.slots,
        vec![BindingSlot { index: 0, compute_only: true, read_only: false, min_size: 4 }]
    );
    assert_eq!(k.element_stride, 4);
    assert_eq!(k.workgroup_size, 64);
}

#[test]
fn acquire_needs_both_capabilities() {
    let all = Capabilities { timestamp_query: true, spirv_passthrough: true };
    assert_eq!(Capabilities::required(), all);
    assert_eq!(acquire(all), Ok(all));
    let no_ts = Capabilities { timestamp_query: false, spirv_passthrough: true };
    let no_spv = Capabilities { timestamp_query: true, spirv_passthrough: false };
    assert_eq!(acquire(no_ts), Err(ComputeError::NoSuitableDevice));
    assert_eq!(acquire(no_spv), Err(ComputeError::NoSuitableDevice));
}

#[test]
fn repeated_acquisition_grants_same_capabilities() {
    let a = acquire(Capabilities::required());
    let b = acquire(Capabilities { timestamp_query: true, spirv_passthrough: true });
    assert_eq!(a, b);
}

#[test]
fn map_phase_transitions() {
    assert_eq!(step(MapPhase::Unmapped, MapEvent::Request), Some(MapPhase::MapRequested));
    assert_eq!(step(MapPhase::MapRequested, MapEvent::Completed { ok: true }), Some(MapPhase::Mapped));
    assert_eq!(step(MapPhase::MapRequested, MapEvent::Completed { ok: false }), Some(MapPhase::Failed));
    assert_eq!(step(MapPhase::Mapped, MapEvent::Read), Some(MapPhase::Consumed));
    assert_eq!(step(MapPhase::Unmapped, MapEvent::Read), None);
    assert_eq!(step(MapPhase::Consumed, MapEvent::Read), None);
    assert_eq!(step(MapPhase::Failed, MapEvent::Request), None);
}

#[test]
fn readback_success_decodes_mapped_bytes() {
    let mut rb = Readback::new();
    assert_eq!(rb.phase(), MapPhase::Unmapped);
    rb.request_map();
    assert_eq!(rb.phase(), MapPhase::MapRequested);
    rb.map_completed(true);
    assert_eq!(rb.phase(), MapPhase::Mapped);
    let out = rb.consume(&encode_words(&bits(&[0.5, 0.2, 0.1])));
    assert_eq!(out, Ok(bits(&[0.5, 0.2, 0.1])));
    assert_eq!(rb.phase(), MapPhase::Consumed);
}

#[test]
fn readback_failure_is_reported() {
    let mut rb = Readback::new();
    rb.request_map();
    rb.map_completed(false);
    assert_eq!(rb.phase(), MapPhase::Failed);
    assert_eq!(rb.consume(&[0, 0, 0, 0]), Err(ComputeError::ReadbackFailed));
    assert_eq!(rb.phase(), MapPhase::Failed);
}
