use validator_bootstrap::cli::Cli;
use validator_bootstrap::client::parse_secret_envelope;
use validator_bootstrap::downloader::{arch_suffix, binary_download_url, normalize_json};
use validator_bootstrap::errors::Error;
use validator_bootstrap::injector::{key_insert_commands, validator_args};
use validator_bootstrap::orchestrator::{advance, Phase};

#[test]
fn architecture_suffix_knows_the_published_binaries() {
    assert_eq!(arch_suffix("x86_64").unwrap(), "x86_64");
    assert_eq!(arch_suffix("aarch64").unwrap(), "aarch64");
    assert_eq!(arch_suffix("riscv64"), Err(Error::ArchitectureUnsupportedError));
    assert_eq!(arch_suffix(""), Err(Error::ArchitectureUnsupportedError));
}

#[test]
fn binary_url_names_version_and_architecture() {
    let url = binary_download_url("master", "x86_64");
    assert_eq!(
        url,
        "https://allfeat-prod-binaries-releases.s3.eu-west-par.io.cloud.ovh.net/master/allfeat-linux-x86_64"
    );
}

#[test]
fn chain_spec_is_reserialized_compactly() {
    let got = normalize_json(" { \"name\" : \"melodie\" ,\n \"id\" : 2 } ").unwrap();
    assert_eq!(got, "{\"id\":2,\"name\":\"melodie\"}");
}

#[test]
fn malformed_chain_spec_is_rejected() {
    assert_eq!(normalize_json("{ \"name\": "), None);
    assert_eq!(normalize_json("not json"), None);
}

#[test]
fn phases_run_strictly_linearly() {
    let mut p = Phase::Init;
    let order = [
        Phase::BinaryReady,
        Phase::ChainSpecReady,
        Phase::SecretFetched,
        Phase::KeysInjected,
        Phase::Validating,
    ];
    for expected in order.iter() {
        p = advance(p);
        assert_eq!(&p, expected);
    }
}

#[test]
fn base_path_arguments_exist_only_when_given() {
    let cli = Cli {
        node_version: "master".to_string(),
        ovh_app_key: "k".to_string(),
        ovh_app_secret: "s".to_string(),
        ovh_consumer_key: "c".to_string(),
        ovh_okms_id: "id".to_string(),
        ovh_secret_path: "p".to_string(),
        base_path: Some("/data".to_string()),
        extra_args: Vec::new(),
    };
    assert_eq!(cli.base_path_args(), vec!["--base-path".to_string(), "/data".to_string()]);
    let bare = Cli { base_path: None, ..cli };
    assert_eq!(bare.base_path_args(), Vec::<String>::new());
}

#[test]
fn mock_store_response_drives_injection_and_launch() {
    // The envelope a mock secret store would return.
    let body = "{\"version\":{\"data\":{\"aura\":\"A\",\"grandpa\":\"G\",\
                 \"im_online\":\"I\",\"keystore_secret\":\"P\",\"node_key\":\"N\"}}}";
    let km = parse_secret_envelope(body).unwrap();

    // Exactly three successful key insertions, one per role, each with the
    // right suri.
    let cmds = key_insert_commands(Some("./chain_spec.json"), &km, &Vec::new()).unwrap();
    assert_eq!(cmds.len(), 3);
    let suri_of = |cmd: &Vec<String>| {
        let i = cmd.iter().position(|a| a == "--suri").unwrap();
        cmd[i + 1].clone()
    };
    let tag_of = |cmd: &Vec<String>| {
        let i = cmd.iter().position(|a| a == "--key-type").unwrap();
        cmd[i + 1].clone()
    };
    let by_tag = |tag: &str| {
        let cmd = cmds.iter().find(|c| tag_of(c) == tag).unwrap();
        suri_of(cmd)
    };
    assert_eq!(by_tag("aura"), "A");
    assert_eq!(by_tag("gran"), "G");
    assert_eq!(by_tag("imon"), "I");
    for cmd in cmds.iter() {
        for flag in ["--chain", "--scheme", "--suri", "--key-type", "--password"] {
            assert!(cmd.iter().any(|a| a == flag));
        }
    }

    // Only then is the node launched as validator, with the node key and
    // keystore password from the same envelope.
    let args =
        validator_args(&Vec::new(), &km.node_key, "./chain_spec.json", &km.keystore_secret, &Vec::new());
    let at = |flag: &str| {
        let i = args.iter().position(|a| a == flag).unwrap();
        args[i + 1].clone()
    };
    assert_eq!(at("--node-key"), "N");
    assert_eq!(at("--password"), "P");
    assert_eq!(at("--chain"), "./chain_spec.json");
    assert!(args.iter().any(|a| a == "--validator"));
}
