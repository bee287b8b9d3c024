use std::io;

use qu::client::QuipError;

fn failing_read() -> Result<(), QuipError> {
    Err(io::Error::new(io::ErrorKind::UnexpectedEof, "closed"))?;
    Ok(())
}

#[test]
fn io_errors_become_client_errors() {
    let error = QuipError::from(io::Error::new(io::ErrorKind::ConnectionRefused, "refused"));

    match error {
        QuipError::Io(inner) => {
            assert_eq!(inner.kind(), io::ErrorKind::ConnectionRefused);
            assert_eq!(inner.to_string(), "refused");
        }
    }
}

#[test]
fn question_mark_converts_io_errors() {
    assert!(matches!(failing_read(), Err(QuipError::Io(error)) if error.kind() == io::ErrorKind::UnexpectedEof));
}
