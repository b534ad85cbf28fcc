use ere::risc0::{po2_settings, prover_opts, risc0_prover, ProverOptsKind, ProverResource, Risc0Prover};
use ere::bindings::{
    check_public_values, handle_kind_code, kind_from_u32, kind_to_u32, new_precheck, new_status,
    slice_ok, verify_precheck, verify_status, zkVMKind, VerifierFailure, ERE_ERR_BAD_KIND,
    ERE_ERR_DECODE_PROGRAM_VK, ERE_ERR_DECODE_PROOF, ERE_ERR_NULL_PTR, ERE_ERR_PUBLIC_VALUES_MISMATCH,
    ERE_ERR_VERIFY, ERE_OK,
};
use ere::dockerized::env::EnvVars;
use ere::dockerized::error::zkVMClientError;
use ere::dockerized_server::{
    proof_kind_from_i32, proof_kind_to_i32, reply_result, ProofKind, SerializedInput,
    SerializedInputItem, zkVMServer,
};
use ere::ere_cli::{read_input_items, SerializableInputItem};
use ere::risc0::{
    bento_clone_args, bento_image_tags, compose_args, compose_failure_message,
    docker_compose_bento_down, docker_compose_bento_up, env_file_values, first_guest, gpu_agents,
    input_bytes, le32_bytes, lines, po2_in_range, po2_value, receipt_kind_matches,
    require_root_package, session_step, visible_devices, AgentGpus, CompileError, ReceiptKind,
    SessionStep, DEFAULT_KECCAK_PO2, DEFAULT_SEGMENT_PO2, MAX_KECCAK_PO2, MAX_SEGMENT_PO2,
    MIN_KECCAK_PO2, MIN_SEGMENT_PO2,
};

fn strings(v: &[&str]) -> Vec<String> {
    v.iter().map(|s| s.to_string()).collect()
}

#[test]
fn bad_kind_rejected() {
    // Kind 999 names no zkVM; the output handle is present, the key empty.
    assert_eq!(new_precheck(false, 999, true, 0), Err(ERE_ERR_BAD_KIND));
    assert_eq!(kind_from_u32(999), None);
}

#[test]
fn null_out_handle_rejected() {
    assert_eq!(new_precheck(true, 0, true, 0), Err(ERE_ERR_NULL_PTR));
}

#[test]
fn verifier_kinds_round_trip() {
    let kinds = [zkVMKind::Airbender, zkVMKind::OpenVM, zkVMKind::Risc0, zkVMKind::SP1, zkVMKind::Zisk];
    for (i, k) in kinds.iter().enumerate() {
        assert_eq!(kind_to_u32(*k), i as u32);
        assert_eq!(kind_from_u32(i as u32), Some(*k));
        assert_eq!(handle_kind_code(Some(*k)), i as u32);
    }
    assert_eq!(kind_from_u32(5), None);
    assert_eq!(handle_kind_code(None), u32::MAX);
}

#[test]
fn verifier_argument_checks() {
    assert!(slice_ok(true, 0));
    assert!(!slice_ok(true, 3));
    assert_eq!(new_precheck(false, 2, true, 4), Err(ERE_ERR_NULL_PTR));
    assert_eq!(new_precheck(false, 2, false, 4), Ok(zkVMKind::Risc0));
    assert_eq!(verify_precheck(true, false, 1, false, 1), Some(ERE_ERR_NULL_PTR));
    assert_eq!(verify_precheck(false, true, 1, false, 1), Some(ERE_ERR_NULL_PTR));
    assert_eq!(verify_precheck(false, false, 1, true, 0), None);
}

#[test]
fn verifier_statuses() {
    assert_eq!(new_status(Ok(())), ERE_OK);
    assert_eq!(new_status(Err(VerifierFailure::DecodeProgramVk)), ERE_ERR_DECODE_PROGRAM_VK);
    assert_eq!(new_status(Err(VerifierFailure::Other)), ERE_ERR_BAD_KIND);
    assert_eq!(verify_status(Err(VerifierFailure::DecodeProof), &[]), ERE_ERR_DECODE_PROOF);
    assert_eq!(verify_status(Err(VerifierFailure::Other), &[]), ERE_ERR_VERIFY);
    assert_eq!(verify_status(Ok(&[1u8, 2][..]), &[1, 2]), ERE_OK);
}

#[test]
fn public_values_must_match() {
    let actual = [7u8, 8, 9, 0, 0];
    assert_eq!(check_public_values(&[7, 8, 9], &actual), ERE_OK);
    assert_eq!(check_public_values(&actual, &actual), ERE_OK);
    // A flipped first byte is a mismatch.
    assert_eq!(check_public_values(&[7 ^ 0xff, 8, 9], &actual), ERE_ERR_PUBLIC_VALUES_MISMATCH);
    // Expected values longer than the actual ones are a mismatch.
    assert_eq!(check_public_values(&[7, 8, 9, 0, 0, 1], &actual), ERE_ERR_PUBLIC_VALUES_MISMATCH);
    // Trailing bytes beyond the expected ones must be zero.
    assert_eq!(check_public_values(&[7, 8], &[7, 8, 1]), ERE_ERR_PUBLIC_VALUES_MISMATCH);
    assert_eq!(verify_status(Ok(&[7u8, 8, 1][..]), &[7, 8]), ERE_ERR_PUBLIC_VALUES_MISMATCH);
}

#[test]
fn proof_kinds_on_the_wire() {
    assert_eq!(proof_kind_to_i32(ProofKind::Compressed), 0);
    assert_eq!(proof_kind_to_i32(ProofKind::Groth16), 1);
    assert_eq!(proof_kind_from_i32(0), Ok(ProofKind::Compressed));
    assert_eq!(proof_kind_from_i32(1), Ok(ProofKind::Groth16));
    assert_eq!(proof_kind_from_i32(2), Err("invalid proof kind: 2".to_string()));
    assert_eq!(proof_kind_from_i32(-7), Err("invalid proof kind: -7".to_string()));
    assert_eq!(proof_kind_from_i32(i32::MIN), Err("invalid proof kind: -2147483648".to_string()));
}

#[test]
fn server_replies() {
    assert_eq!(reply_result(Some(Ok::<u8, String>(5))).unwrap(), 5);
    assert_eq!(
        reply_result::<u8>(Some(Err("guest panicked".to_string()))).unwrap_err(),
        zkVMClientError::zkVM("guest panicked".to_string())
    );
    assert_eq!(
        reply_result::<u8>(None).unwrap_err(),
        zkVMClientError::Rpc("response result should always be Some".to_string())
    );
    let server = zkVMServer::new(41u32);
    assert_eq!(*server.zkvm(), 41);
    let served = ere::ere_server::zkVMServer::new("sp1");
    assert_eq!(*served.zkvm(), "sp1");
}

#[test]
fn cli_input_items_keep_order() {
    let items = vec![
        SerializableInputItem::Bytes(vec![1]),
        SerializableInputItem::SerializedObject(vec![2, 3]),
        SerializableInputItem::Bytes(vec![]),
    ];
    let out = read_input_items(items);
    assert_eq!(
        out,
        vec![
            SerializedInputItem::Bytes(vec![1]),
            SerializedInputItem::SerializedObject(vec![2, 3]),
            SerializedInputItem::Bytes(vec![]),
        ]
    );
    let input = SerializedInput(out);
    assert_eq!(input.0.len(), 3);
}

#[test]
fn risc0_input_stream() {
    let items = vec![
        SerializedInputItem::SerializedObject(vec![0xaa, 0xbb]),
        SerializedInputItem::Bytes(vec![1, 2, 3]),
        SerializedInputItem::Bytes(vec![]),
    ];
    assert_eq!(input_bytes(&items), vec![0xaa, 0xbb, 3, 0, 0, 0, 1, 2, 3, 0, 0, 0, 0]);
    assert_eq!(le32_bytes(0x01020304), vec![4, 3, 2, 1]);
}

#[test]
fn risc0_po2_settings() {
    assert_eq!(po2_value(None, DEFAULT_SEGMENT_PO2), 20);
    assert_eq!(po2_value(Some("21"), DEFAULT_SEGMENT_PO2), 21);
    assert_eq!(po2_value(Some("+15"), DEFAULT_KECCAK_PO2), 15);
    assert_eq!(po2_value(Some("big"), DEFAULT_KECCAK_PO2), 17);
    assert!(po2_in_range(MIN_SEGMENT_PO2, MIN_SEGMENT_PO2, MAX_SEGMENT_PO2));
    assert!(po2_in_range(22, MIN_SEGMENT_PO2, MAX_SEGMENT_PO2));
    assert!(!po2_in_range(23, MIN_SEGMENT_PO2, MAX_SEGMENT_PO2));
    assert!(!po2_in_range(13, MIN_KECCAK_PO2, MAX_KECCAK_PO2));
    assert!(!po2_in_range(19, MIN_KECCAK_PO2, MAX_KECCAK_PO2));
}

#[test]
fn risc0_receipt_kinds() {
    assert!(receipt_kind_matches(ProofKind::Compressed, ReceiptKind::Succinct));
    assert!(receipt_kind_matches(ProofKind::Groth16, ReceiptKind::Groth16));
    assert!(!receipt_kind_matches(ProofKind::Compressed, ReceiptKind::Composite));
    assert!(!receipt_kind_matches(ProofKind::Groth16, ReceiptKind::Succinct));
    assert!(!receipt_kind_matches(ProofKind::Groth16, ReceiptKind::Fake));
}

#[test]
fn bento_session_steps() {
    assert_eq!(session_step("RUNNING", None), SessionStep::Wait);
    assert_eq!(session_step("SUCCEEDED", Some("ignored")), SessionStep::Download);
    assert_eq!(
        session_step("FAILED", Some("out of memory")),
        SessionStep::Fail("Job failed with error message: out of memory".to_string())
    );
    assert_eq!(session_step("FAILED", None), SessionStep::Fail("Job failed with error message: ".to_string()));
    assert_eq!(session_step("ABORTED", None), SessionStep::Fail("Unexpected proving status: ABORTED".to_string()));
}

#[test]
fn text_lines() {
    assert_eq!(lines("a\r\nb\n\nc"), strings(&["a", "b", "", "c"]));
    assert_eq!(lines("x\n"), strings(&["x"]));
    assert_eq!(lines(""), Vec::<String>::new());
}

#[test]
fn bento_env_file() {
    let mut env = EnvVars::new();
    env.set("REDIS_IMG".to_string(), "redis:8".to_string());
    let file = "# comment\nREDIS_IMG=redis:7.2\nPOSTGRES_PORT=5432\nURL=a=b\n";
    assert_eq!(
        env_file_values(file, &env),
        vec![
            ("REDIS_IMG".to_string(), "redis:8".to_string()),
            ("POSTGRES_PORT".to_string(), "5432".to_string()),
            ("URL".to_string(), "a=b".to_string()),
        ]
    );
}

#[test]
fn bento_gpu_agents() {
    assert_eq!(visible_devices("0,2, 3,x,,5"), vec![0, 2, 5]);
    assert_eq!(visible_devices(""), Vec::<usize>::new());
    assert_eq!(gpu_agents(&vec![]), vec![("gpu_prove_agent0".to_string(), AgentGpus::All)]);
    assert_eq!(
        gpu_agents(&vec![0, 2]),
        vec![
            ("gpu_prove_agent0".to_string(), AgentGpus::Device(0)),
            ("gpu_prove_agent2".to_string(), AgentGpus::Device(2)),
        ]
    );
}

#[test]
fn bento_compose_commands() {
    let up = docker_compose_bento_up();
    assert_eq!(up, strings(&["up", "--detach", "--wait"]));
    assert_eq!(compose_args(&up), strings(&["compose", "--file", "-", "up", "--detach", "--wait"]));
    let down = docker_compose_bento_down();
    assert_eq!(down, strings(&["down", "--volumes"]));
    assert_eq!(compose_failure_message(&down), "Failed to spawn `docker compose --file - $down --volumes`");
}

#[test]
fn bento_images() {
    let (agent, rest) = bento_image_tags("2.3.0");
    assert_eq!(agent, "ere-risc0/agent:2.3.0");
    assert_eq!(rest, "ere-risc0/rest_api:2.3.0");
    assert_eq!(
        bento_clone_args("2.3.0", "/tmp/r"),
        strings(&["clone", "--depth", "1", "--branch", "v2.3.0", "https://github.com/risc0/risc0.git", "/tmp/r"])
    );
}

#[test]
fn risc0_guest_build_checks() {
    assert!(require_root_package("/g", true).is_ok());
    match require_root_package("/g", false) {
        Err(CompileError::MissingPackageName { path }) => assert_eq!(path, "/g"),
        other => panic!("unexpected {:?}", other),
    }
    assert_eq!(first_guest(vec!["a", "b"]).unwrap(), "a");
    assert!(matches!(first_guest(Vec::<u8>::new()), Err(CompileError::Risc0BuildMissingGuest)));
}

#[test]
fn risc0_prover_choice() {
    assert_eq!(risc0_prover(ProverResource::Cpu, true), Risc0Prover::External);
    assert_eq!(risc0_prover(ProverResource::Gpu, true), Risc0Prover::LocalDefault);
    assert_eq!(risc0_prover(ProverResource::Gpu, false), Risc0Prover::DefaultCuda);
    assert_eq!(prover_opts(ProofKind::Compressed), ProverOptsKind::Succinct);
    assert_eq!(prover_opts(ProofKind::Groth16), ProverOptsKind::Groth16);
    assert_eq!(po2_settings(None, None), (20, 17));
    assert_eq!(po2_settings(Some("22"), Some("x")), (22, 17));
}

#[test]
fn server_replies_to_methods() {
    assert_eq!(ere::dockerized_server::server_reply(Ok((5u8, Ok(vec![1])))), Ok(Ok((5u8, vec![1]))));
    assert_eq!(ere::dockerized_server::server_reply::<u8>(Err("guest failed".to_string())), Ok(Err("guest failed".to_string())));
    assert_eq!(
        ere::dockerized_server::server_reply(Ok((5u8, Err("too deep".to_string())))),
        Err("failed to serialize report: too deep".to_string())
    );
}
