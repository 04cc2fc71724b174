use p2p_game_engine::storage::{author_of_file, secret_key_of_file, AUTHOR_FILE, KEYPAIR_FILE};

#[test]
fn file_names() {
    assert_eq!(KEYPAIR_FILE, "keypair");
    assert_eq!(AUTHOR_FILE, "default.author");
}

#[test]
fn a_key_file_holds_the_key_in_its_first_32_bytes() {
    let contents: Vec<u8> = (0..40u8).collect();
    let key = secret_key_of_file(&contents).unwrap();
    assert_eq!(key.to_vec(), (0..32u8).collect::<Vec<u8>>());
    assert_eq!(secret_key_of_file(&contents[..32]), Some(key));
    assert_eq!(secret_key_of_file(&contents[..31]), None);
    assert_eq!(secret_key_of_file(&[]), None);
    let secret = iroh::SecretKey::from_bytes(&[9u8; 32]);
    let read = secret_key_of_file(&secret.to_bytes()).unwrap();
    assert_eq!(iroh::SecretKey::from_bytes(&read).public(), secret.public());
}

#[test]
fn an_author_file_is_exactly_the_author() {
    let contents: Vec<u8> = (100..140u8).collect();
    assert_eq!(author_of_file(&contents[..32]).unwrap().to_vec(), contents[..32].to_vec());
    assert_eq!(author_of_file(&contents[..33]), None);
    assert_eq!(author_of_file(&contents[..31]), None);
    assert_eq!(author_of_file(&[]), None);
}
