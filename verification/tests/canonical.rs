use xzibot::canonical::normalize_url;

#[test]
fn normalize_twitter_url() {
    let input = "https://twitter.com/fi_paris5/status/1470124228825526272?s=21&t=23";
    let output = normalize_url(input).unwrap();
    assert_eq!(
        output,
        "https://twitter.com/fi_paris5/status/1470124228825526272"
    );
}

#[test]
fn normalize_youtube_com_url() {
    let input = "https://www.youtube.com/watch?v=VnxvRNbKMvA&t=36s";
    let output = normalize_url(input).unwrap();
    assert_eq!(output, "https://www.youtube.com/watch?v=VnxvRNbKMvA");
}

#[test]
fn normalize_youtu_be_url() {
    let input = "https://youtu.be/VnxvRNbKMvA?t=37";
    let output = normalize_url(input).unwrap();
    assert_eq!(output, "https://youtu.be/VnxvRNbKMvA");
}

#[test]
fn extract_url() {
    assert_eq!(
        xzibot::utils::extract_url("abc http://www.google.com def").unwrap(),
        "http://www.google.com"
    );
}

#[test]
fn extract_first_url() {
    assert_eq!(
        xzibot::utils::extract_url("abc http://www.google.com def http://www.twitter.com ghi")
            .unwrap(),
        "http://www.google.com"
    );
}

#[test]
fn extract_url_none_without_link() {
    assert!(xzibot::utils::extract_url("just some words").is_none());
}

#[test]
fn normalize_strips_utm_parameters() {
    let output = normalize_url("https://example.com/page?utm_source=x&id=5&utm_campaign=y").unwrap();
    assert_eq!(output, "https://example.com/page?id=5");
}

#[test]
fn normalize_same_result_with_or_without_utm() {
    let with_utm =
        normalize_url("https://example.com/a/b?x=1&utm_source=news&y=2&utm_medium=mail").unwrap();
    let without_utm = normalize_url("https://example.com/a/b?x=1&y=2").unwrap();
    assert_eq!(with_utm, without_utm);
}

#[test]
fn normalize_strips_single_trailing_slash() {
    assert_eq!(normalize_url("https://example.com/").unwrap(), "https://example.com");
    assert_eq!(
        normalize_url("https://example.com/news/?utm_source=a").unwrap(),
        "https://example.com/news"
    );
}

#[test]
fn normalize_keeps_ordinary_parameters_and_casing() {
    assert_eq!(
        normalize_url("https://Example.com/Path?id=5&q=Rust").unwrap(),
        "https://Example.com/Path?id=5&q=Rust"
    );
}

#[test]
fn normalize_rejects_unparseable_input() {
    assert!(normalize_url("not a url").is_err());
    assert!(normalize_url("://missing-scheme").is_err());
    assert!(normalize_url("scheme://").is_err());
}

#[test]
fn normalize_twitter_params_kept_elsewhere() {
    // The share-session and referrer parameters are only ephemeral on the
    // microblogging host; elsewhere they are ordinary parameters.
    assert_eq!(
        normalize_url("https://example.com/page?s=21&t=23").unwrap(),
        "https://example.com/page?s=21&t=23"
    );
}
