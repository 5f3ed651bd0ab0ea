use bdk_cli::descriptor::{is_readable, read_key, Reading};
use bdk_cli::error::Error;
use bdk_cli::naming::descriptor_wallet_name;
use bdk_cli::opts::{
    CompactFilterOpts, ElectrumOpts, EsploraOpts, Network, ProxyOpts, RpcOpts, WalletOpts,
};

const XPRV: &str = "tprv8ZgxMBicQKsPdpkqS7Eair4YxjcuuvDPNYmKX3sCniCf16tHEVrjjiSXEkFRnUH77yXc6ZcwHHcLNfjdi5qUvw3VDfgYiH5mNsj5izuiu2N";
const XPUB: &str = "tpubD6NzVbkrYhZ4XHndKkuB8FifXm8r5FQHwrN6oZuWCz13qb93rtgKvD4PQsqC4HP4yhV3tA2fqr2RbY5mNXfM7RxXUoeABoDtsFUq2zJq6YK";
const COMPRESSED: &str = "0279be667ef9dcbbac55a06295ce870b07029bfcdb2dce28d959f2815b16f81798";
const UNCOMPRESSED: &str = "0479be667ef9dcbbac55a06295ce870b07029bfcdb2dce28d959f2815b16f81798483ada7726a3c4655da4fbfc0e1108a8fd17b448a68554199c47d08ffb10d4b8";
const WIF: &str = "5HpHagT65TZzG1PH3CSu63k8DbpvD8s5ip4nEB3kEsreAnchuDf";
const COMPRESSED_WIF: &str = "KwDiBf89QgGbjEhKnhXJuH7LrciVrZi3qYjgd9M7rFU73sVHnoWn";

fn deep(steps: usize) -> String {
    format!("{}{}", XPRV, "/0'".repeat(steps))
}

fn name(descriptor: &str) -> Result<String, Error> {
    let opts = WalletOpts {
        wallet: None,
        descriptor: descriptor.to_string(),
        change_descriptor: None,
        verbose: false,
        electrum_opts: ElectrumOpts { server: String::new(), timeout: None, stop_gap: 0 },
        esplora_opts: EsploraOpts { server: String::new(), timeout: 0, conc: 0, stop_gap: 0 },
        compactfilter_opts: CompactFilterOpts { address: vec![], conn_count: 0, skip_blocks: 0 },
        rpc_opts: RpcOpts {
            address: String::new(),
            basic_auth: (String::new(), String::new()),
            cookie: None,
            skip_blocks: None,
        },
        proxy_opts: ProxyOpts { proxy: None, proxy_auth: None, retries: 0 },
    };
    assert!(opts.is_readable(Network::Testnet));
    descriptor_wallet_name(&opts, Network::Testnet)
}

fn is_refused(descriptor: &str) -> bool {
    is_readable(descriptor) && matches!(name(descriptor), Err(Error::Other(_)))
}

fn is_named(descriptor: &str) -> bool {
    is_readable(descriptor) && matches!(name(descriptor), Ok(text) if text.len() == 8)
}

#[test]
fn keys_are_read_as_private_ones_first() {
    assert_eq!(read_key(WIF), Reading::Key { uncompressed: true });
    assert_eq!(read_key(COMPRESSED_WIF), Reading::Key { uncompressed: false });
    assert_eq!(read_key(UNCOMPRESSED), Reading::Key { uncompressed: true });
    assert_eq!(read_key(COMPRESSED), Reading::Key { uncompressed: false });
    assert_eq!(read_key(&COMPRESSED[2..]), Reading::Key { uncompressed: false });
    assert_eq!(read_key(XPRV), Reading::Key { uncompressed: false });
    assert_eq!(read_key(&format!("{}/0'/*", XPUB)), Reading::Key { uncompressed: false });
    assert_eq!(read_key(&format!("[d34db33f/44']{}", UNCOMPRESSED)), Reading::Key { uncompressed: true });
    assert_eq!(read_key(""), Reading::Malformed);
    assert_eq!(read_key("rubbish"), Reading::Malformed);
    assert_eq!(read_key("\u{fc}"), Reading::Malformed);
    assert_eq!(read_key(&format!("04{}", "ab".repeat(64))), Reading::Malformed);
}

#[test]
fn no_key_lies_deeper_than_a_byte_counts() {
    assert_eq!(read_key(&deep(255)), Reading::Key { uncompressed: false });
    assert_eq!(read_key(&deep(256)), Reading::TooDeep);
    assert_eq!(read_key(&format!("{}/*", deep(255))), Reading::Key { uncompressed: false });
    assert_eq!(read_key(&format!("{}/*'", deep(255))), Reading::Key { uncompressed: false });
    assert_eq!(read_key(&format!("{}/*h", deep(256))), Reading::TooDeep);
    assert_eq!(read_key(&format!("{}{}", deep(255), "/0".repeat(9))), Reading::Key { uncompressed: false });
    assert_eq!(read_key(&format!("{}{}/0h", XPRV, "/0".repeat(255))), Reading::TooDeep);
    assert_eq!(read_key(&format!("{}{}", XPRV, "/0".repeat(300))), Reading::Key { uncompressed: false });
    assert_eq!(read_key(&format!("{}/x", deep(256))), Reading::Malformed);
    assert_eq!(read_key(&format!("{}{}", XPUB, "/0'".repeat(300))), Reading::Key { uncompressed: false });
}

#[test]
fn uncompressed_keys_cannot_be_read_in_witness_hashes() {
    for key in [UNCOMPRESSED, WIF] {
        assert!(!is_readable(&format!("wpkh({})", key)));
        assert!(!is_readable(&format!("sh(wpkh({}))", key)));
        assert!(!is_readable(&format!("wpkh([d34db33f/44'/0']{})", key)));
        assert!(is_named(&format!("pkh({})", key)));
        assert!(is_named(&format!("wsh(pk({}))", key)));
    }
    assert!(is_named(&format!("wpkh({})", COMPRESSED)));
    assert!(is_named(&format!("wpkh({})", COMPRESSED_WIF)));
}

#[test]
fn what_only_looks_like_an_uncompressed_key_is_refused() {
    assert!(is_refused(&format!("wpkh(04{})", "ab".repeat(64))));
    assert!(is_refused(&format!("wpkh(5{})", "K".repeat(50))));
    assert!(is_refused(&format!("sh(wpkh(9{}))", "c".repeat(50))));
    assert!(is_refused(&format!("wpkh({}", UNCOMPRESSED)));
    assert!(is_refused(&format!("wpkh({}))", UNCOMPRESSED)));
    assert!(is_refused(&format!("wpkh({},{})", UNCOMPRESSED, UNCOMPRESSED)));
    assert!(is_refused(&format!("wsh(wpkh({}))", UNCOMPRESSED)));
}

#[test]
fn too_deep_keys_cannot_be_read_anywhere() {
    assert!(!is_readable(&format!("pkh({})", deep(256))));
    assert!(!is_readable(&format!("wsh(multi(1,{},{}))", COMPRESSED, deep(256))));
    assert!(!is_readable(&format!("sh(sortedmulti(1,{},{}))", deep(256), COMPRESSED)));
    assert!(!is_readable(&format!("tr({})", deep(256))));
    assert!(!is_readable(&format!("tr({},pk({}))", &COMPRESSED[2..], deep(256))));
    assert!(is_named(&format!("pkh({}/0)", deep(255))));
    assert!(is_named(&format!("wsh(multi(1,{},{}))", COMPRESSED, deep(255))));
}

#[test]
fn a_key_that_is_refused_first_ends_the_reading() {
    assert!(is_refused(&format!("wsh(multi(1,rubbish,{}))", deep(256))));
    assert!(!is_readable(&format!("wsh(multi(1,{},rubbish))", deep(256))));
    assert!(is_refused(&format!("tr(rubbish,pk({}))", deep(256))));
    assert!(!is_readable(&format!("tr({},pk(rubbish))", deep(256))));
    assert!(is_refused(&format!("nonsense({})", deep(256))));
}

#[test]
fn a_wrong_checksum_is_refused_first() {
    let body = format!("wpkh({})", UNCOMPRESSED);
    let checksum = bdk::descriptor::get_checksum(&body).unwrap();
    assert!(!is_readable(&format!("{}#{}", body, checksum)));
    assert!(is_refused(&format!("{}#", body)));
    assert!(is_refused(&format!("{}#aaaaaaaa", body)));
    assert!(is_refused(&format!("{}#{}#", body, checksum)));
    assert!(is_refused(&format!("\u{fc}{}#{}", body, checksum)));
    let fine = format!("pkh({})", UNCOMPRESSED);
    let checksum = bdk::descriptor::get_checksum(&fine).unwrap();
    assert_eq!(name(&format!("{}#{}", fine, checksum)), Ok(checksum));
}

#[test]
fn texts_that_are_no_descriptor_are_refused() {
    for text in ["", "wpkh()", "wpkh", "#", "tr()", "tr(", "rubbish", "\u{fc}(\u{fc})"] {
        assert!(is_refused(text));
    }
}
