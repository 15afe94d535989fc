use page::text::is_whitespace;
use page::upload::{
    check_upload_request, description_validator, direct_upload_meta, hashtags_validator,
    join_hashtags, mock_upload_info, post_details_from_form, upload_failed_error, upload_url_of, upload_url_status_error, video_is_ready,
    video_metadata,
};

#[test]
fn description_empty_is_required() {
    assert_eq!(description_validator(String::new()), Err("Description is required".to_string()));
}

#[test]
fn description_short_is_rejected() {
    assert_eq!(
        description_validator("too short".to_string()),
        Err("Description must be at least 10 characters".to_string())
    );
}

#[test]
fn description_counts_bytes() {
    // five two-byte characters make ten bytes
    assert_eq!(description_validator("ééééé".to_string()), Ok(()));
    assert!(description_validator("éééé".to_string()).is_err());
}

#[test]
fn description_of_ten_bytes_is_accepted() {
    assert_eq!(description_validator("0123456789".to_string()), Ok(()));
}

#[test]
fn hashtags_empty_is_required() {
    assert_eq!(hashtags_validator(String::new()), Err("Hashtags are required".to_string()));
}

#[test]
fn hashtags_are_cleaned() {
    let r = hashtags_validator(" #rust , #verus,,  ##, yral ".to_string()).unwrap();
    assert_eq!(r, vec!["rust".to_string(), "verus".to_string(), "yral".to_string()]);
}

#[test]
fn hashtags_trim_before_removing_hash() {
    // trimming happens first, so the space after the `#` stays
    let r = hashtags_validator("# tag".to_string()).unwrap();
    assert_eq!(r, vec![" tag".to_string()]);
}

#[test]
fn hashtags_only_separators_give_none() {
    assert_eq!(hashtags_validator(",,,".to_string()), Ok(vec![]));
}

#[test]
fn hashtags_at_most_eight() {
    let eight = "a,b,c,d,e,f,g,h".to_string();
    assert_eq!(hashtags_validator(eight).unwrap().len(), 8);
    assert_eq!(
        hashtags_validator("a,b,c,d,e,f,g,h,i".to_string()),
        Err("Only a maximum of 8 hashtags are allowed".to_string())
    );
}

#[test]
fn hashtags_match_std_pipeline() {
    let inputs = ["a, b ,#c", "\u{3000}x\u{3000},y", "##,#", "one", " , ,a", "\t#t#a#g\n,z"];
    for input in inputs {
        let expected: Vec<String> = input
            .split(',')
            .filter_map(|s| {
                let ht = s.trim().replace('#', "");
                if ht.is_empty() { None } else { Some(ht) }
            })
            .collect();
        assert_eq!(hashtags_validator(input.to_string()), Ok(expected));
    }
}

#[test]
fn whitespace_matches_std() {
    for u in 0u32..=0x3100 {
        if let Some(c) = char::from_u32(u) {
            assert_eq!(is_whitespace(c), c.is_whitespace(), "char {u:#x}");
        }
    }
}

#[test]
fn upload_request_checks() {
    let tags: Vec<String> = (0..9).map(|i| i.to_string()).collect();
    assert_eq!(
        check_upload_request("short", &vec![]),
        Err("Description must be at least 10 characters".to_string())
    );
    assert_eq!(check_upload_request("long enough text", &tags), Err("Too many hashtags".to_string()));
    assert_eq!(check_upload_request("long enough text", &tags[..8].to_vec()), Ok(()));
}

#[test]
fn hashtags_join_with_commas() {
    let tags = vec!["a".to_string(), "bc".to_string(), "d".to_string()];
    assert_eq!(join_hashtags(&tags), "a,bc,d");
    assert_eq!(join_hashtags(&vec![]), "");
}

#[test]
fn metadata_of_an_upload() {
    let tags = vec!["a".to_string(), "b c".to_string()];
    let m = video_metadata("my video", &tags);
    assert_eq!(m.title, "my video");
    assert_eq!(m.description, "my video");
    assert_eq!(m.tags, "a,b c");
    let meta = direct_upload_meta(&tags, "desc", "clip.mp4");
    let pairs: Vec<(&str, &str)> = meta.iter().map(|(k, v)| (k.as_str(), v.as_str())).collect();
    assert_eq!(
        pairs,
        vec![("hashtags", "a,b c"), ("description", "desc"), ("fileName", "clip.mp4"), ("uploadType", "challenge")]
    );
}

#[test]
fn video_status_and_upload_errors() {
    assert!(video_is_ready("ready"));
    assert!(!video_is_ready("queued"));
    assert!(!video_is_ready("Ready"));
    assert_eq!(upload_url_of(Some("https://u".to_string())), Ok("https://u".to_string()));
    assert_eq!(upload_url_of(None), Err("Upload URL not found in response".to_string()));
    assert_eq!(upload_url_status_error(404), "Failed to get upload URL: status 404");
    assert_eq!(upload_failed_error(500, "Internal Server Error"), "Upload request failed: status 500 Internal Server Error");
}

#[test]
fn post_details_and_mock_slot() {
    let p = post_details_from_form(true, vec!["t".to_string()], "d".to_string(), "uid".to_string(), false);
    assert!(p.is_nsfw);
    assert_eq!(p.hashtags, vec!["t".to_string()]);
    assert_eq!(p.description, "d");
    assert_eq!(p.video_uid, "uid");
    assert!(!p.creator_consent_for_inclusion_in_hot_or_not);
    let m = mock_upload_info();
    assert_eq!(m.uid, "mock");
    assert_eq!(m.upload_url, "http://mock.com");
}

#[test]
fn validated_upload_passes_the_server_check() {
    let desc = "a fine video".to_string();
    let tags = hashtags_validator("#a,#b,c".to_string()).unwrap();
    assert_eq!(description_validator(desc.clone()), Ok(()));
    assert_eq!(check_upload_request(&desc, &tags), Ok(()));
}

#[test]
fn accepted_hashtags_revalidate_unchanged() {
    let tags = hashtags_validator(" #rust , verus,,yral ".to_string()).unwrap();
    let again = hashtags_validator(join_hashtags(&tags)).unwrap();
    assert_eq!(again, tags);
}
