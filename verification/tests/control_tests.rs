use artnet_protocol::{ArtCommand, Output, Poll};
use flame_rig::geometry::{make_faces, make_vertices};
use flame_rig::mapper::{tick, TickOutcome};
use flame_rig::registry::{ControlState, FaceRegistry};

fn fresh_registry() -> FaceRegistry {
    let vertices = make_vertices();
    let quads = make_faces();
    FaceRegistry::construct(&vertices, &quads)
}

/// A full 60-byte payload: pair i is (1, 128) for even i and (0, 50) for
/// odd i, as a sender covering all 30 faces would emit.
fn full_payload() -> Vec<u8> {
    let mut p = Vec::new();
    for i in 0..30 {
        if i % 2 == 0 {
            p.push(1);
            p.push(128);
        } else {
            p.push(0);
            p.push(50);
        }
    }
    p
}

fn states(reg: &FaceRegistry) -> Vec<ControlState> {
    reg.faces.iter().map(|f| f.state).collect()
}

#[test]
fn full_frame_updates_all_faces() {
    let mut reg = fresh_registry();
    let payload = full_payload();
    reg.apply_frame(&payload);
    for i in 0..30 {
        let st = reg.faces[i].state;
        assert_eq!(st.switch, payload[2 * i] > 0, "face {}", i);
        assert_eq!(st.flow, payload[2 * i + 1], "face {}", i);
    }
}

#[test]
fn short_frame_updates_only_a_prefix() {
    let mut reg = fresh_registry();
    reg.apply_frame(&full_payload());
    let prior = states(&reg);
    let short: Vec<u8> = vec![0, 1, 1, 2, 0, 3, 1, 4, 0, 5];
    reg.apply_frame(&short);
    for i in 0..5 {
        let st = reg.faces[i].state;
        assert_eq!(st.switch, short[2 * i] > 0, "face {}", i);
        assert_eq!(st.flow, short[2 * i + 1], "face {}", i);
    }
    for i in 5..30 {
        assert_eq!(reg.faces[i].state, prior[i], "face {}", i);
    }
}

#[test]
fn odd_and_oversized_payloads_degrade_gracefully() {
    let mut reg = fresh_registry();
    let prior = states(&reg);

    // A single dangling byte holds no complete pair: nothing changes.
    reg.apply_frame(&[7]);
    assert_eq!(states(&reg), prior);

    // Three bytes hold one pair: only face 0 changes.
    reg.apply_frame(&[1, 9, 200]);
    assert_eq!(reg.faces[0].state, ControlState { switch: true, flow: 9 });
    assert_eq!(states(&reg)[1..], prior[1..]);

    // Bytes beyond 60 are ignored; the 30 faces take the first 30 pairs.
    let mut oversized = full_payload();
    oversized.extend_from_slice(&[255; 40]);
    reg.apply_frame(&oversized);
    for i in 0..30 {
        let st = reg.faces[i].state;
        assert_eq!(st.switch, oversized[2 * i] > 0);
        assert_eq!(st.flow, oversized[2 * i + 1]);
    }

    // The empty payload is valid and changes nothing.
    let prior = states(&reg);
    reg.apply_frame(&[]);
    assert_eq!(states(&reg), prior);
}

#[test]
fn switched_off_face_scales_to_zero() {
    let mut reg = fresh_registry();
    // Switch byte 0 with a non-zero flow: still fully collapsed.
    reg.apply_frame(&[0, 77]);
    let p = reg.visual_params(0);
    assert_eq!((p.scale.x, p.scale.y, p.scale.z), (0, 0, 0));
    // The fresh state is also off, whatever its full flow.
    let p = reg.visual_params(1);
    assert_eq!((p.scale.x, p.scale.y, p.scale.z), (0, 0, 0));
}

#[test]
fn switched_on_face_scales_with_flow() {
    let mut reg = fresh_registry();
    reg.apply_frame(&[1, 255, 1, 0, 1, 128]);
    // Full flow: scale (1, 2, 1), here in exact 255ths.
    let p = reg.visual_params(0);
    assert_eq!((p.scale.x, p.scale.y, p.scale.z), (255, 510, 255));
    // Zero flow: scale (1, 0, 1).
    let p = reg.visual_params(1);
    assert_eq!((p.scale.x, p.scale.y, p.scale.z), (255, 0, 255));
    // Intermediate flow scales linearly.
    let p = reg.visual_params(2);
    assert_eq!((p.scale.x, p.scale.y, p.scale.z), (255, 256, 255));
}

#[test]
fn position_is_three_halves_of_center() {
    let reg = fresh_registry();
    for i in 0..30 {
        let c = reg.faces[i].center;
        let p = reg.visual_params(i).position;
        for (pa, ca) in [(p.x, c.x), (p.y, c.y), (p.z, c.z)] {
            assert_eq!(pa.a, 3 * ca.a);
            assert_eq!(pa.b, 3 * ca.b);
            assert_eq!(pa.den, 2 * ca.den);
        }
    }
}

#[test]
fn snapshot_matches_per_face_reads() {
    let mut reg = fresh_registry();
    reg.apply_frame(&full_payload());
    let snap = reg.visual_snapshot();
    assert_eq!(snap.len(), 30);
    for i in 0..30 {
        assert_eq!(snap[i], reg.visual_params(i));
    }
}

#[test]
fn nothing_received_is_a_no_op() {
    let mut reg = fresh_registry();
    let prior = states(&reg);
    let outcome = tick(&mut reg, None);
    assert_eq!(outcome, TickOutcome::NothingReceived);
    assert_eq!(states(&reg), prior);
}

#[test]
fn undecodable_bytes_give_decode_error_and_change_nothing() {
    let mut reg = fresh_registry();
    reg.apply_frame(&full_payload());
    let prior = states(&reg);

    let garbage: Vec<u8> = vec![0xde, 0xad, 0xbe, 0xef];
    let outcome = tick(&mut reg, Some(&garbage));
    assert_eq!(outcome, TickOutcome::DecodeError);
    assert_eq!(states(&reg), prior);

    // A correct header with a truncated body is still a decode error.
    let truncated = b"Art-Net\0\x00\x50".to_vec();
    let outcome = tick(&mut reg, Some(&truncated));
    assert_eq!(outcome, TickOutcome::DecodeError);
    assert_eq!(states(&reg), prior);
}

#[test]
fn output_packet_applies_its_payload() {
    let mut reg = fresh_registry();
    let payload = full_payload();
    let command = ArtCommand::Output(Output {
        data: payload.clone().into(),
        ..Output::default()
    });
    let bytes = command.write_to_buffer().unwrap();
    let outcome = tick(&mut reg, Some(&bytes));
    assert_eq!(outcome, TickOutcome::Applied);
    for i in 0..30 {
        let st = reg.faces[i].state;
        assert_eq!(st.switch, payload[2 * i] > 0, "face {}", i);
        assert_eq!(st.flow, payload[2 * i + 1], "face {}", i);
    }
}

#[test]
fn non_output_command_is_ignored() {
    let mut reg = fresh_registry();
    reg.apply_frame(&full_payload());
    let prior = states(&reg);
    let bytes = ArtCommand::Poll(Poll::default()).write_to_buffer().unwrap();
    let outcome = tick(&mut reg, Some(&bytes));
    assert_eq!(outcome, TickOutcome::OtherCommand);
    assert_eq!(states(&reg), prior);
}
