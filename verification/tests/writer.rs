use flechasdb_s3::error::Error;
use flechasdb_s3::syncfs::{S3FileSystem, S3HashedFileOut, UploadFailure};

const EMPTY_ID: &str = "47DEQpj8HBSa-_TImW-5JCeuQeRkm5NMpJWZG3hSuFU";
const EMPTY_CHECKSUM: &str = "47DEQpj8HBSa+/TImW+5JCeuQeRkm5NMpJWZG3hSuFU=";
const ABC_ID: &str = "ungWv48Bz-pBQUDeXa4iI7ADYaOWF3qctBD_YfIAFa0";
const ABC_CHECKSUM: &str = "ungWv48Bz+pBQUDeXa4iI7ADYaOWF3qctBD/YfIAFa0=";
const HELLO_ID: &str = "Ccp-TqpuiunH0mEWcSkYSINkTQffuny_vEyKLgg2DVs";

fn file_system() -> S3FileSystem {
    S3FileSystem::new(String::from("bucket"), String::from("base"))
}

#[test]
fn empty_object_has_the_well_known_id() {
    let file = file_system().create_hashed_file();
    let upload = file.persist("bin");
    assert_eq!(upload.id, EMPTY_ID);
    assert_eq!(upload.request.checksum_sha256, EMPTY_CHECKSUM);
    assert_eq!(upload.request.bucket_name, "bucket");
    assert_eq!(upload.request.key, format!("base/{}.bin", EMPTY_ID));
}

#[test]
fn write_takes_every_byte() {
    let mut file = file_system().create_hashed_file();
    assert_eq!(file.write(b"abc"), 3);
    assert_eq!(file.write(b""), 0);
    assert_eq!(file.write(&[0u8; 1000]), 1000);
}

#[test]
fn persist_names_the_object_by_its_content() {
    let mut file = file_system().create_hashed_file();
    file.write(b"abc");
    let upload = file.persist("binpb");
    assert_eq!(upload.id, ABC_ID);
    assert_eq!(upload.request.checksum_sha256, ABC_CHECKSUM);
    assert_eq!(upload.request.key, format!("base/{}.binpb", ABC_ID));
}

#[test]
fn id_is_url_safe_and_unpadded() {
    let mut file = file_system().create_hashed_file();
    file.write(b"abc");
    let upload = file.persist("bin");
    assert_eq!(upload.id.len(), 43);
    assert!(upload.id.chars().all(|c| c.is_ascii_alphanumeric() || c == '-' || c == '_'));
    assert_eq!(upload.request.checksum_sha256.len(), 44);
    assert!(upload.request.checksum_sha256.ends_with('='));
    assert_ne!(upload.id, "abc");
}

#[test]
fn chunking_does_not_change_the_id() {
    let content = b"hello, world";
    let mut whole = file_system().create_hashed_file();
    whole.write(content);
    let whole = whole.persist("bin");

    let mut by_byte = file_system().create_hashed_file();
    for byte in content.iter() {
        by_byte.write(&[*byte]);
    }
    let by_byte = by_byte.persist("bin");

    let mut uneven = file_system().create_hashed_file();
    uneven.write(&content[..5]);
    uneven.write(&content[5..5]);
    uneven.write(&content[5..11]);
    uneven.write(&content[11..]);
    let uneven = uneven.persist("bin");

    assert_eq!(whole.id, HELLO_ID);
    assert_eq!(by_byte.id, HELLO_ID);
    assert_eq!(uneven.id, HELLO_ID);
    assert_eq!(whole.request, by_byte.request);
    assert_eq!(whole.request, uneven.request);
}

#[test]
fn long_content_spans_many_digest_blocks() {
    let content: Vec<u8> = (0..1024u32).map(|i| (i % 256) as u8).collect();
    let mut file = file_system().create_hashed_file();
    file.write(&content[..100]);
    file.write(&content[100..]);
    let upload = file.persist("bin");
    assert_eq!(upload.id, "eFsHUfwsU9wUpM49gA5p75zhAJ6zJ8z0WK_gnCQsJsk");
    assert_eq!(upload.request.checksum_sha256, "eFsHUfwsU9wUpM49gA5p75zhAJ6zJ8z0WK/gnCQsJsk=");
}

#[test]
fn create_hashed_file_in_nests_the_key() {
    let mut file = file_system().create_hashed_file_in("partitions");
    file.write(b"abc");
    let upload = file.persist("binpb");
    assert_eq!(upload.request.bucket_name, "bucket");
    assert_eq!(upload.request.key, format!("base/partitions/{}.binpb", ABC_ID));
}

#[test]
fn create_starts_with_nothing_written() {
    let file = S3HashedFileOut::create(String::from("b"), String::from("p/q"));
    let upload = file.persist("x");
    assert_eq!(upload.id, EMPTY_ID);
    assert_eq!(upload.request.bucket_name, "b");
    assert_eq!(upload.request.key, format!("p/q/{}.x", EMPTY_ID));
}

#[test]
fn completed_upload_returns_the_id() {
    let mut file = file_system().create_hashed_file();
    file.write(b"abc");
    let upload = file.persist("bin");
    assert_eq!(upload.complete(Ok(())), Ok(String::from(ABC_ID)));
}

#[test]
fn rejected_upload_wraps_the_cause() {
    let upload = file_system().create_hashed_file().persist("bin");
    assert_eq!(
        upload.complete(Err(UploadFailure::Rejected(String::from("access denied")))),
        Err(Error::InvalidContext(String::from(
            "failed to upload the content to S3: access denied"
        )))
    );
}

#[test]
fn unreadable_scratch_wraps_the_cause() {
    let upload = file_system().create_hashed_file().persist("bin");
    assert_eq!(
        upload.complete(Err(UploadFailure::Unreadable(String::from("gone")))),
        Err(Error::InvalidContext(String::from(
            "failed to read the temporary file: gone"
        )))
    );
}

#[test]
fn try_persist_agrees_with_persist() {
    let mut file = file_system().create_hashed_file();
    file.write(b"abc");
    assert!(file.can_persist());
    let upload = file.try_persist("bin").unwrap();
    assert_eq!(upload.id, ABC_ID);
    assert_eq!(upload.request.checksum_sha256, ABC_CHECKSUM);
    assert_eq!(upload.request.key, format!("base/{}.bin", ABC_ID));
}

#[test]
fn id_is_the_checksum_respelled() {
    for content in [&b""[..], &b"abc"[..], &b"hello, world"[..], &[0xffu8; 100][..]] {
        let mut file = file_system().create_hashed_file();
        file.write(content);
        let upload = file.persist("bin");
        let respelled: String = upload
            .request
            .checksum_sha256
            .chars()
            .take(43)
            .map(|c| match c {
                '+' => '-',
                '/' => '_',
                c => c,
            })
            .collect();
        assert_eq!(upload.id, respelled);
        assert_eq!(upload.request.checksum_sha256.chars().nth(43), Some('='));
    }
}

#[test]
fn different_content_gets_a_different_id() {
    let mut first = file_system().create_hashed_file();
    first.write(b"abc");
    let mut second = file_system().create_hashed_file();
    second.write(b"abd");
    let first = first.persist("bin");
    let second = second.persist("bin");
    assert_ne!(first.id, second.id);
    assert_ne!(first.request.checksum_sha256, second.request.checksum_sha256);
    assert_ne!(first.request.key, second.request.key);
}
