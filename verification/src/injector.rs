//! The key injector: the exact argument lists of the three privileged
//! `key insert` subprocess invocations that populate the node's keystore,
//! and of the final validator launch. The library computes the plans; the
//! caller runs the subprocesses and hands back their outcome.

use vstd::prelude::*;

use crate::client::KeyMaterial;
use crate::errors::Error;

verus! {

/// The character sequences of a list of strings.
pub open spec fn chars_of_strings(v: Seq<String>) -> Seq<Seq<char>> {
    v.map_values(|s: String| s@)
}

/// The argument list of one `key insert` invocation: the fixed arguments in
/// the order the node binary's CLI requires, then the caller-supplied base
/// arguments.
pub open spec fn insert_argv(
    chain_spec: Seq<char>,
    scheme: Seq<char>,
    suri: Seq<char>,
    key_type: Seq<char>,
    password: Seq<char>,
    base_args: Seq<Seq<char>>,
) -> Seq<Seq<char>> {
    seq![
        "key"@,
        "insert"@,
        "--chain"@,
        chain_spec,
        "--scheme"@,
        scheme,
        "--suri"@,
        suri,
        "--key-type"@,
        key_type,
        "--password"@,
        password,
    ] + base_args
}

/// The three insertions, in order: the finality key (Grandpa, Ed25519,
/// `gran`), the block-authoring key (Aura, Sr25519, `aura`) and the
/// liveness-heartbeat key (ImOnline, Sr25519, `imon`), each protected by
/// the keystore password.
pub open spec fn injection_plan(
    chain_spec: Seq<char>,
    secrets: KeyMaterial,
    base_args: Seq<Seq<char>>,
) -> Seq<Seq<Seq<char>>> {
    seq![
        insert_argv(
            chain_spec,
            "Ed25519"@,
            secrets.grandpa@,
            "gran"@,
            secrets.keystore_secret@,
            base_args,
        ),
        insert_argv(
            chain_spec,
            "Sr25519"@,
            secrets.aura@,
            "aura"@,
            secrets.keystore_secret@,
            base_args,
        ),
        insert_argv(
            chain_spec,
            "Sr25519"@,
            secrets.im_online@,
            "imon"@,
            secrets.keystore_secret@,
            base_args,
        ),
    ]
}

/// Law: whatever the chain specification, key material and base arguments,
/// the plan issues exactly three invocations, one per scheme and key-type
/// pair — (Ed25519, gran), (Sr25519, aura), (Sr25519, imon) — and each
/// carries the five fixed flags with the base arguments appended after them.
pub proof fn lemma_injection_plan_shape(
    chain_spec: Seq<char>,
    secrets: KeyMaterial,
    base_args: Seq<Seq<char>>,
)
    ensures
        injection_plan(chain_spec, secrets, base_args).len() == 3,
        forall|i: int|
            0 <= i < 3 ==> {
                let argv = #[trigger] injection_plan(chain_spec, secrets, base_args)[i];
                argv.len() == 12 + base_args.len() && argv[0] == "key"@ && argv[1] == "insert"@
                    && argv[2] == "--chain"@ && argv[3] == chain_spec && argv[4] == "--scheme"@
                    && argv[6] == "--suri"@ && argv[8] == "--key-type"@ && argv[10]
                    == "--password"@ && argv[11] == secrets.keystore_secret@ && (forall|k: int|
                    0 <= k < base_args.len() ==> argv[12 + k] == base_args[k])
            },
        injection_plan(chain_spec, secrets, base_args)[0][5] == "Ed25519"@ && injection_plan(
            chain_spec,
            secrets,
            base_args,
        )[0][9] == "gran"@ && injection_plan(chain_spec, secrets, base_args)[0][7]
            == secrets.grandpa@,
        injection_plan(chain_spec, secrets, base_args)[1][5] == "Sr25519"@ && injection_plan(
            chain_spec,
            secrets,
            base_args,
        )[1][9] == "aura"@ && injection_plan(chain_spec, secrets, base_args)[1][7]
            == secrets.aura@,
        injection_plan(chain_spec, secrets, base_args)[2][5] == "Sr25519"@ && injection_plan(
            chain_spec,
            secrets,
            base_args,
        )[2][9] == "imon"@ && injection_plan(chain_spec, secrets, base_args)[2][7]
            == secrets.im_online@,
{
}

/// Appends clones of all of `src` to `dst`.
fn append_cloned(dst: &mut Vec<String>, src: &Vec<String>)
    ensures
        final(dst)@.len() == old(dst)@.len() + src@.len(),
        forall|k: int| 0 <= k < old(dst)@.len() ==> final(dst)@[k] == old(dst)@[k],
        forall|k: int| 0 <= k < src@.len() ==> final(dst)@[old(dst)@.len() + k] == src@[k],
{
    let mut j: usize = 0;
    while j < src.len()
        invariant
            j <= src@.len(),
            dst@.len() == old(dst)@.len() + j,
            forall|k: int| 0 <= k < old(dst)@.len() ==> dst@[k] == old(dst)@[k],
            forall|k: int| 0 <= k < j ==> dst@[old(dst)@.len() + k] == src@[k],
        decreases src@.len() - j,
    {
        dst.push(src[j].clone());
        j = j + 1;
    }
}

/// Builds the argument list of one `key insert` invocation.
fn insert_command(
    chain_spec: &str,
    scheme: &str,
    suri: &String,
    key_type: &str,
    password: &String,
    base_args: &Vec<String>,
) -> (r: Vec<String>)
    ensures
        chars_of_strings(r@) == insert_argv(
            chain_spec@,
            scheme@,
            suri@,
            key_type@,
            password@,
            chars_of_strings(base_args@),
        ),
{
    let mut args: Vec<String> = Vec::new();
    args.push(String::from_str("key"));
    args.push(String::from_str("insert"));
    args.push(String::from_str("--chain"));
    args.push(String::from_str(chain_spec));
    args.push(String::from_str("--scheme"));
    args.push(String::from_str(scheme));
    args.push(String::from_str("--suri"));
    args.push(suri.clone());
    args.push(String::from_str("--key-type"));
    args.push(String::from_str(key_type));
    args.push(String::from_str("--password"));
    args.push(password.clone());
    append_cloned(&mut args, base_args);
    proof {
        assert(chars_of_strings(args@) =~= insert_argv(
            chain_spec@,
            scheme@,
            suri@,
            key_type@,
            password@,
            chars_of_strings(base_args@),
        ));
    }
    args
}

/// Computes the three `key insert` argument lists for the given chain
/// specification path, key material and base arguments. The path arrives as
/// the optional text form of a filesystem path; a path with no text form
/// cannot be handed to a subprocess, which is the path-encoding error.
pub fn key_insert_commands(
    chain_spec: Option<&str>,
    secrets: &KeyMaterial,
    base_args: &Vec<String>,
) -> (r: Result<Vec<Vec<String>>, Error>)
    ensures
        r is Ok <==> chain_spec is Some,
        r matches Ok(cmds) ==> cmds@.len() == 3 && (forall|i: int|
            0 <= i < 3 ==> chars_of_strings(#[trigger] cmds@[i]@) == injection_plan(
                chain_spec->Some_0@,
                *secrets,
                chars_of_strings(base_args@),
            )[i]),
        r is Err ==> r == Err::<Vec<Vec<String>>, Error>(Error::PathEncodingError),
{
    let chain = match chain_spec {
        Some(c) => c,
        None => {
            return Err(Error::PathEncodingError);
        },
    };
    let mut cmds: Vec<Vec<String>> = Vec::new();
    cmds.push(
        insert_command(chain, "Ed25519", &secrets.grandpa, "gran", &secrets.keystore_secret, base_args),
    );
    cmds.push(
        insert_command(chain, "Sr25519", &secrets.aura, "aura", &secrets.keystore_secret, base_args),
    );
    cmds.push(
        insert_command(
            chain,
            "Sr25519",
            &secrets.im_online,
            "imon",
            &secrets.keystore_secret,
            base_args,
        ),
    );
    proof {
        let plan = injection_plan(chain@, *secrets, chars_of_strings(base_args@));
        assert(chars_of_strings(cmds@[0]@) == plan[0]);
        assert(chars_of_strings(cmds@[1]@) == plan[1]);
        assert(chars_of_strings(cmds@[2]@) == plan[2]);
    }
    Ok(cmds)
}

/// The argument list that launches the node as a validator: the base
/// arguments, the validator flag with the node identity key, the chain
/// specification and the keystore password, then the operator's extra
/// arguments, exactly in the order the node binary's CLI requires.
pub open spec fn validator_argv(
    base_args: Seq<Seq<char>>,
    node_key: Seq<char>,
    chain_spec: Seq<char>,
    password: Seq<char>,
    extra_args: Seq<Seq<char>>,
) -> Seq<Seq<char>> {
    base_args + seq![
        "--validator"@,
        "--node-key"@,
        node_key,
        "--chain"@,
        chain_spec,
        "--password"@,
        password,
    ] + extra_args
}

/// Builds the validator-launch argument list.
pub fn validator_args(
    base_args: &Vec<String>,
    node_key: &String,
    chain_spec: &str,
    password: &String,
    extra_args: &Vec<String>,
) -> (r: Vec<String>)
    ensures
        chars_of_strings(r@) == validator_argv(
            chars_of_strings(base_args@),
            node_key@,
            chain_spec@,
            password@,
            chars_of_strings(extra_args@),
        ),
{
    let mut args: Vec<String> = Vec::new();
    append_cloned(&mut args, base_args);
    args.push(String::from_str("--validator"));
    args.push(String::from_str("--node-key"));
    args.push(node_key.clone());
    args.push(String::from_str("--chain"));
    args.push(String::from_str(chain_spec));
    args.push(String::from_str("--password"));
    args.push(password.clone());
    append_cloned(&mut args, extra_args);
    proof {
        assert(chars_of_strings(args@) =~= validator_argv(
            chars_of_strings(base_args@),
            node_key@,
            chain_spec@,
            password@,
            chars_of_strings(extra_args@),
        ));
    }
    args
}

} // verus!
