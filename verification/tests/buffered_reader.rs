use bytes::Bytes;
use flechasdb_s3::error::Error;
use flechasdb_s3::syncfs::{S3FileSystem, S3HashedFileIn};

const EMPTY_CHECKSUM: &str = "47DEQpj8HBSa+/TImW+5JCeuQeRkm5NMpJWZG3hSuFU=";
const ABC_CHECKSUM: &str = "ungWv48Bz+pBQUDeXa4iI7ADYaOWF3qctBD/YfIAFa0=";
const HELLO_CHECKSUM: &str = "Ccp+TqpuiunH0mEWcSkYSINkTQffuny/vEyKLgg2DVs=";

fn opened(checksum: &str, body: &'static [u8]) -> S3HashedFileIn {
    S3HashedFileIn::open(String::from(checksum), Ok(Bytes::from_static(body))).unwrap()
}

fn drain(file: &mut S3HashedFileIn, chunk: usize) -> Vec<u8> {
    let mut all = Vec::new();
    let mut buf = vec![0u8; chunk];
    loop {
        let n = file.read(&mut buf);
        if n == 0 {
            break;
        }
        all.extend_from_slice(&buf[..n]);
    }
    all
}

#[test]
fn open_hashed_file_asks_for_the_checksum() {
    let fs = S3FileSystem::new(String::from("bucket"), String::from("base"));
    let request = fs.open_hashed_file("abc.bin");
    assert_eq!(request.bucket_name, "bucket");
    assert_eq!(request.key, "base/abc.bin");
    assert!(request.checksum_requested);
}

#[test]
fn response_with_checksum_is_accepted() {
    let response = Ok(Some(String::from(ABC_CHECKSUM)));
    assert_eq!(S3HashedFileIn::expect_checksum(response), Ok(String::from(ABC_CHECKSUM)));
}

#[test]
fn response_without_checksum_is_rejected() {
    assert_eq!(
        S3HashedFileIn::expect_checksum(Ok(None)),
        Err(Error::InvalidContext(String::from("no checksum for the content from S3")))
    );
}

#[test]
fn failed_request_wraps_the_cause() {
    assert_eq!(
        S3HashedFileIn::expect_checksum(Err(String::from("timeout"))),
        Err(Error::InvalidContext(String::from(
            "failed to request the content from S3: timeout"
        )))
    );
}

#[test]
fn failed_body_wraps_the_cause() {
    let result = S3HashedFileIn::open(String::from(ABC_CHECKSUM), Err(String::from("reset")));
    match result {
        Err(Error::InvalidContext(message)) => {
            assert_eq!(message, "failed to read the content from S3: reset")
        }
        _ => panic!("the failure of the body must fail the opening"),
    }
}

#[test]
fn read_copies_up_to_the_room_of_the_buffer() {
    let mut file = opened(ABC_CHECKSUM, b"abc");
    let mut buf = [0u8; 2];
    assert_eq!(file.read(&mut buf), 2);
    assert_eq!(&buf, b"ab");
    assert_eq!(file.read(&mut buf), 1);
    assert_eq!(&buf, b"cb");
    assert_eq!(file.read(&mut buf), 0);
    assert_eq!(&buf, b"cb");
}

#[test]
fn read_into_a_larger_buffer_leaves_the_rest() {
    let mut file = opened(ABC_CHECKSUM, b"abc");
    let mut buf = [7u8; 5];
    assert_eq!(file.read(&mut buf), 3);
    assert_eq!(&buf, &[b'a', b'b', b'c', 7, 7]);
}

#[test]
fn read_into_an_empty_buffer_reads_nothing() {
    let mut file = opened(ABC_CHECKSUM, b"abc");
    let mut none: [u8; 0] = [];
    assert_eq!(file.read(&mut none), 0);
    assert_eq!(drain(&mut file, 8), b"abc");
    assert_eq!(file.verify(), Ok(()));
}

#[test]
fn round_trip_in_one_read() {
    let mut file = opened(HELLO_CHECKSUM, b"hello, world");
    assert_eq!(drain(&mut file, 64), b"hello, world");
    assert_eq!(file.verify(), Ok(()));
}

#[test]
fn round_trip_byte_by_byte() {
    let mut file = opened(HELLO_CHECKSUM, b"hello, world");
    assert_eq!(drain(&mut file, 1), b"hello, world");
    assert_eq!(file.verify(), Ok(()));
}

#[test]
fn round_trip_in_uneven_reads() {
    let mut file = opened(HELLO_CHECKSUM, b"hello, world");
    assert_eq!(drain(&mut file, 5), b"hello, world");
    assert_eq!(file.verify(), Ok(()));
}

#[test]
fn empty_object_reads_nothing_and_verifies() {
    let mut file = opened(EMPTY_CHECKSUM, b"");
    let mut buf = [0u8; 4];
    assert_eq!(file.read(&mut buf), 0);
    assert_eq!(file.verify(), Ok(()));
}

#[test]
fn wrong_checksum_fails_verification() {
    for chunk in [1usize, 3, 5, 64] {
        let mut file = opened(ABC_CHECKSUM, b"hello, world");
        assert_eq!(drain(&mut file, chunk), b"hello, world");
        assert_eq!(
            file.verify(),
            Err(Error::VerificationFailure(format!(
                "checksum discrepancy: expected {} but got {}",
                ABC_CHECKSUM, HELLO_CHECKSUM
            )))
        );
    }
}

#[test]
fn tampered_body_fails_verification() {
    let mut file = opened(HELLO_CHECKSUM, b"hello, World");
    assert_eq!(drain(&mut file, 4), b"hello, World");
    assert!(matches!(file.verify(), Err(Error::VerificationFailure(_))));
}

#[test]
fn checksum_in_the_other_alphabet_fails_verification() {
    let mut file = opened("Ccp-TqpuiunH0mEWcSkYSINkTQffuny_vEyKLgg2DVs", b"hello, world");
    drain(&mut file, 64);
    assert!(matches!(file.verify(), Err(Error::VerificationFailure(_))));
}

#[test]
fn partial_read_fails_verification() {
    let mut file = opened(HELLO_CHECKSUM, b"hello, world");
    let mut buf = [0u8; 5];
    assert_eq!(file.read(&mut buf), 5);
    assert_eq!(
        file.verify(),
        Err(Error::VerificationFailure(format!(
            "checksum discrepancy: expected {} but got {}",
            HELLO_CHECKSUM, "LPJNul+wow4m6DsqxbninhsWHlwfp0JecwQzYpOLmCQ="
        )))
    );
}

#[test]
fn unread_object_verifies_only_against_the_empty_checksum() {
    assert_eq!(opened(EMPTY_CHECKSUM, b"abc").verify(), Ok(()));
    assert!(opened(ABC_CHECKSUM, b"abc").verify().is_err());
}

#[test]
fn written_object_reads_back_and_verifies() {
    let fs = S3FileSystem::new(String::from("bucket"), String::from("base"));
    let content: Vec<u8> = (0..3000u32).map(|i| (i * 7 % 251) as u8).collect();
    let mut out = fs.create_hashed_file();
    out.write(&content[..1234]);
    out.write(&content[1234..]);
    let upload = out.persist("bin");
    let request = fs.open_hashed_file(&format!("{}.bin", upload.id));
    assert_eq!(request.key, upload.request.key);
    assert_eq!(request.bucket_name, upload.request.bucket_name);

    let checksum =
        S3HashedFileIn::expect_checksum(Ok(Some(upload.request.checksum_sha256))).unwrap();
    let mut file = S3HashedFileIn::open(checksum, Ok(Bytes::from(content.clone()))).unwrap();
    assert_eq!(drain(&mut file, 97), content);
    assert_eq!(file.verify(), Ok(()));
}

#[test]
fn try_verify_agrees_with_verify() {
    let mut file = opened(HELLO_CHECKSUM, b"hello, world");
    drain(&mut file, 5);
    assert!(file.can_verify());
    assert_eq!(file.try_verify(), Some(Ok(())));

    let mut file = opened(ABC_CHECKSUM, b"hello, world");
    drain(&mut file, 5);
    assert!(matches!(file.try_verify(), Some(Err(Error::VerificationFailure(_)))));
}
