use beatmap_downloader::error::DownloadError;
use beatmap_downloader::filename::{
    announced_file_name, choose_file_name, default_file_name, file_name_from_decoded,
};

fn by_std(header: &str) -> Option<String> {
    header.split("filename=").nth(1).map(|name| name.trim_matches('"').to_string())
}

#[test]
fn default_name_is_id_and_extension() {
    assert_eq!(default_file_name(3), "3.osz");
    assert_eq!(default_file_name(1234567), "1234567.osz");
    assert_eq!(default_file_name(0), "0.osz");
}

#[test]
fn announced_name_is_read_from_the_header() {
    assert_eq!(
        announced_file_name("attachment; filename=\"123 Artist - Title.osz\""),
        Some("123 Artist - Title.osz".to_string())
    );
    assert_eq!(announced_file_name("attachment; filename=plain.osz"), Some("plain.osz".to_string()));
    assert_eq!(announced_file_name("attachment"), None);
    assert_eq!(announced_file_name(""), None);
    assert_eq!(announced_file_name("filename="), Some(String::new()));
    assert_eq!(announced_file_name("filename=\"\"\""), Some(String::new()));
}

#[test]
fn announced_name_ends_at_the_next_marker() {
    assert_eq!(
        announced_file_name("attachment; filename=\"a.osz\"; x-filename=\"b.osz\""),
        Some("a.osz\"; x-".to_string())
    );
    assert_eq!(announced_file_name("filename=filename=c"), Some(String::new()));
}

#[test]
fn announced_name_agrees_with_std() {
    for header in [
        "attachment; filename=\"a b.osz\"",
        "filename=\"\"quoted\"\"",
        "inline",
        "filename=x; filename=y; filename=z",
        "FILENAME=upper",
        "attachment; filename*=UTF-8''na%C3%AFve.osz",
        "filename=\"inner \" quote\"",
        "filename=日本語.osz",
        "filenam=e",
        "\"filename=\"",
    ] {
        assert_eq!(announced_file_name(header), by_std(header), "{:?}", header);
    }
}

#[test]
fn chosen_name_defaults() {
    assert_eq!(choose_file_name("7.osz".to_string(), None), Ok("7.osz".to_string()));
    assert_eq!(choose_file_name("7.osz".to_string(), Some("attachment")), Ok("7.osz".to_string()));
}

#[test]
fn chosen_name_is_percent_decoded() {
    assert_eq!(
        choose_file_name("7.osz".to_string(), Some("attachment; filename=\"7%20Song%20A.osz\"")),
        Ok("7 Song A.osz".to_string())
    );
    assert_eq!(
        choose_file_name("7.osz".to_string(), Some("attachment; filename=%E6%97%A5.osz")),
        Ok("日.osz".to_string())
    );
    assert_eq!(
        choose_file_name("7.osz".to_string(), Some("attachment; filename=a+b%2Bc.osz")),
        Ok("a+b+c.osz".to_string())
    );
    assert_eq!(
        choose_file_name("7.osz".to_string(), Some("attachment; filename=100%.osz")),
        Ok("100%.osz".to_string())
    );
    assert_eq!(
        choose_file_name("7.osz".to_string(), Some("attachment; filename=plain.osz")),
        Ok("plain.osz".to_string())
    );
}

#[test]
fn chosen_name_that_is_no_text_fails() {
    assert_eq!(
        choose_file_name("7.osz".to_string(), Some("attachment; filename=%FF%FE.osz")),
        Err(DownloadError::FileName)
    );
}

#[test]
fn decoded_name_or_failure() {
    assert_eq!(file_name_from_decoded(Ok("a.osz".to_string())), Ok("a.osz".to_string()));
    let broken = String::from_utf8(vec![0xff, 0xfe]);
    assert!(broken.is_err());
    assert_eq!(file_name_from_decoded(broken), Err(DownloadError::FileName));
}
