use validator_bootstrap::client::KeyMaterial;
use validator_bootstrap::errors::Error;
use validator_bootstrap::injector::{key_insert_commands, validator_args};

fn material() -> KeyMaterial {
    KeyMaterial {
        aura: "aura-seed".to_string(),
        grandpa: "grandpa-seed".to_string(),
        im_online: "imonline-seed".to_string(),
        keystore_secret: "pw".to_string(),
        node_key: "nk".to_string(),
    }
}

#[test]
fn exactly_three_insertions_one_per_scheme_and_tag() {
    let km = material();
    let cmds = key_insert_commands(Some("./chain_spec.json"), &km, &Vec::new()).unwrap();
    assert_eq!(cmds.len(), 3);
    let expected = [
        ("Ed25519", "grandpa-seed", "gran"),
        ("Sr25519", "aura-seed", "aura"),
        ("Sr25519", "imonline-seed", "imon"),
    ];
    for (cmd, (scheme, suri, tag)) in cmds.iter().zip(expected.iter()) {
        assert_eq!(
            cmd,
            &vec![
                "key".to_string(),
                "insert".to_string(),
                "--chain".to_string(),
                "./chain_spec.json".to_string(),
                "--scheme".to_string(),
                scheme.to_string(),
                "--suri".to_string(),
                suri.to_string(),
                "--key-type".to_string(),
                tag.to_string(),
                "--password".to_string(),
                "pw".to_string(),
            ]
        );
    }
}

#[test]
fn base_arguments_follow_the_fixed_arguments() {
    let km = material();
    let base = vec!["--base-path".to_string(), "/data".to_string()];
    let cmds = key_insert_commands(Some("spec.json"), &km, &base).unwrap();
    for cmd in cmds.iter() {
        assert_eq!(cmd.len(), 14);
        assert_eq!(&cmd[12..], &["--base-path".to_string(), "/data".to_string()][..]);
        assert_eq!(cmd[0], "key");
        assert_eq!(cmd[1], "insert");
    }
}

#[test]
fn unrepresentable_chain_spec_path_is_a_path_encoding_error() {
    let km = material();
    match key_insert_commands(None, &km, &Vec::new()) {
        Err(e) => assert_eq!(e, Error::PathEncodingError),
        Ok(_) => panic!("a path with no text form must not be handed to a subprocess"),
    }
}

#[test]
fn validator_launch_arguments_are_exact() {
    let base = vec!["--base-path".to_string(), "/data".to_string()];
    let extra = vec!["--rpc-port".to_string(), "9944".to_string()];
    let args = validator_args(&base, &"nk".to_string(), "spec.json", &"pw".to_string(), &extra);
    assert_eq!(
        args,
        vec![
            "--base-path".to_string(),
            "/data".to_string(),
            "--validator".to_string(),
            "--node-key".to_string(),
            "nk".to_string(),
            "--chain".to_string(),
            "spec.json".to_string(),
            "--password".to_string(),
            "pw".to_string(),
            "--rpc-port".to_string(),
            "9944".to_string(),
        ]
    );
}
