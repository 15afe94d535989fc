//! Validation of the upload form: the video description and the hashtag list,
//! and the checks made before an upload slot is requested.
use vstd::prelude::*;
use crate::number::{decimal, push_decimal};
use crate::text::{text_equals, append_str, push_char, chars_of, is_ws, lemma_split_on_fields_lack_sep, trim_end, trim_start, remove_char, split_on, string_from_chars, trim, trim_chars};

verus! {

/// An owned copy of `s`.
pub fn owned(s: &str) -> (r: String)
    ensures
        r@ == s@,
{
    s.to_owned()
}

/// A hashtag as the user typed it, cleaned: surrounding whitespace trimmed,
/// then every `#` removed.
pub open spec fn clean_hashtag(field: Seq<char>) -> Seq<char> {
    remove_char(trim(field), '#')
}

/// The cleaned fields that are not empty, in order.
pub open spec fn collect_hashtags(fields: Seq<Seq<char>>) -> Seq<Seq<char>>
    decreases fields.len(),
{
    if fields.len() == 0 {
        Seq::empty()
    } else {
        let init = collect_hashtags(fields.drop_last());
        let t = clean_hashtag(fields.last());
        if t.len() > 0 {
            init.push(t)
        } else {
            init
        }
    }
}

/// The hashtags held by a comma-separated input.
pub open spec fn hashtags_of(s: Seq<char>) -> Seq<Seq<char>> {
    collect_hashtags(split_on(s, ','))
}

/// The character views of a list of strings.
pub open spec fn string_views(v: Seq<String>) -> Seq<Seq<char>> {
    v.map_values(|t: String| t@)
}

/// The most hashtags a video may carry.
pub const MAX_HASHTAGS: usize = 8;

/// The fewest bytes a description may have.
pub const MIN_DESCRIPTION_BYTES: usize = 10;

pub open spec fn description_error(desc: Seq<char>) -> Option<Seq<char>> {
    if desc.len() == 0 {
        Some("Description is required"@)
    } else if vstd::utf8::encode_utf8(desc).len() < MIN_DESCRIPTION_BYTES {
        Some("Description must be at least 10 characters"@)
    } else {
        None
    }
}

/// Checks a video description: it must not be empty, and it must be at least
/// ten bytes long in UTF-8.
pub fn description_validator(desc: String) -> (r: Result<(), String>)
    ensures
        match r {
            Ok(()) => description_error(desc@) is None,
            Err(e) => description_error(desc@) == Some(e@),
        },
{
    if desc.as_str().is_empty() {
        return Err(owned("Description is required"));
    } else if desc.as_str().as_bytes().len() < MIN_DESCRIPTION_BYTES {
        return Err(owned("Description must be at least 10 characters"));
    }
    Ok(())
}

/// `v` without any `c`.
pub fn remove_char_vec(v: &Vec<char>, c: char) -> (r: Vec<char>)
    ensures
        r@ == remove_char(v@, c),
{
    let mut r: Vec<char> = Vec::new();
    let mut i: usize = 0;
    while i < v.len()
        invariant
            i <= v@.len(),
            r@ == remove_char(v@.subrange(0, i as int), c),
        decreases v@.len() - i,
    {
        let ghost pre = v@.subrange(0, i as int);
        let ghost next = v@.subrange(0, i + 1);
        assert(next.drop_last() =~= pre);
        assert(next.last() == v@[i as int]);
        assert(remove_char(next, c) == if v@[i as int] != c {
            remove_char(pre, c).push(v@[i as int])
        } else {
            remove_char(pre, c)
        }) by {
            reveal_with_fuel(Seq::filter, 1);
        }
        if v[i] != c {
            r.push(v[i]);
        }
        i = i + 1;
    }
    assert(v@.subrange(0, v@.len() as int) =~= v@);
    r
}

/// Cleans one comma-separated field and appends it to `out` when not empty.
fn push_hashtag(out: &mut Vec<String>, field: &Vec<char>)
    ensures
        string_views(final(out)@) == (if clean_hashtag(field@).len() > 0 {
            string_views(old(out)@).push(clean_hashtag(field@))
        } else {
            string_views(old(out)@)
        }),
{
    let trimmed = trim_chars(field);
    let cleaned = remove_char_vec(&trimmed, '#');
    if cleaned.len() > 0 {
        let t = string_from_chars(&cleaned);
        out.push(t);
        assert(string_views(out@) =~= string_views(old(out)@).push(clean_hashtag(field@)));
    }
}

/// The hashtags of a comma-separated input, in order: each field trimmed,
/// stripped of `#`, and dropped when that leaves nothing.
pub fn parse_hashtags(s: &str) -> (r: Vec<String>)
    ensures
        string_views(r@) == hashtags_of(s@),
{
    let chars = chars_of(s);
    let mut out: Vec<String> = Vec::new();
    let mut cur: Vec<char> = Vec::new();
    let ghost mut done: Seq<Seq<char>> = Seq::empty();
    let mut i: usize = 0;
    while i < chars.len()
        invariant
            chars@ == s@,
            i <= chars@.len(),
            split_on(chars@.subrange(0, i as int), ',') == done.push(cur@),
            string_views(out@) == collect_hashtags(done),
        decreases chars@.len() - i,
    {
        let c = chars[i];
        let ghost pre = chars@.subrange(0, i as int);
        assert(chars@.subrange(0, i + 1).drop_last() =~= pre);
        assert(chars@.subrange(0, i + 1).last() == c);
        if c == ',' {
            push_hashtag(&mut out, &cur);
            proof {
                assert(done.push(cur@).drop_last() =~= done);
                done = done.push(cur@);
            }
            cur = Vec::new();
        } else {
            let ghost before = cur@;
            cur.push(c);
            assert(done.push(before).update(done.len() as int, before.push(c)) =~= done.push(
                cur@,
            ));
        }
        i = i + 1;
    }
    push_hashtag(&mut out, &cur);
    proof {
        assert(chars@.subrange(0, chars@.len() as int) =~= chars@);
        assert(done.push(cur@).drop_last() =~= done);
    }
    out
}

proof fn lemma_trim_start_lacks(s: Seq<char>, c: char)
    requires
        !s.contains(c),
    ensures
        !trim_start(s).contains(c),
    decreases s.len(),
{
    if s.len() > 0 && is_ws(s[0]) {
        assert forall|k: int| 0 <= k < s.drop_first().len() implies s.drop_first()[k] != c by {
            assert(s.drop_first()[k] == s[k + 1]);
        }
        lemma_trim_start_lacks(s.drop_first(), c);
    }
}

proof fn lemma_trim_end_lacks(s: Seq<char>, c: char)
    requires
        !s.contains(c),
    ensures
        !trim_end(s).contains(c),
    decreases s.len(),
{
    if s.len() > 0 && is_ws(s.last()) {
        assert forall|k: int| 0 <= k < s.drop_last().len() implies s.drop_last()[k] != c by {
            assert(s.drop_last()[k] == s[k]);
        }
        lemma_trim_end_lacks(s.drop_last(), c);
    }
}

proof fn lemma_clean_hashtag_lacks(field: Seq<char>, c: char)
    requires
        !field.contains(c),
    ensures
        !clean_hashtag(field).contains(c),
        !clean_hashtag(field).contains('#'),
{
    lemma_trim_start_lacks(field, c);
    lemma_trim_end_lacks(trim_start(field), c);
    lemma_remove_char_lacks(trim(field), '#', c);
}

proof fn lemma_remove_char_lacks(t: Seq<char>, r: char, c: char)
    requires
        !t.contains(c),
    ensures
        !remove_char(t, r).contains(c),
        !remove_char(t, r).contains(r),
    decreases t.len(),
{
    reveal_with_fuel(Seq::filter, 1);
    if t.len() > 0 {
        assert forall|k: int| 0 <= k < t.drop_last().len() implies t.drop_last()[k] != c by {
            assert(t.drop_last()[k] == t[k]);
        }
        lemma_remove_char_lacks(t.drop_last(), r, c);
        assert(t.last() == t[t.len() - 1]);
    }
}

proof fn lemma_collect_well_formed(fields: Seq<Seq<char>>)
    requires
        forall|i: int, j: int|
            0 <= i < fields.len() && 0 <= j < fields[i].len() ==> fields[i][j] != ',',
    ensures
        forall|i: int|
            0 <= i < collect_hashtags(fields).len() ==> {
                let t = #[trigger] collect_hashtags(fields)[i];
                &&& t.len() > 0
                &&& !t.contains('#')
                &&& !t.contains(',')
            },
    decreases fields.len(),
{
    if fields.len() > 0 {
        lemma_collect_well_formed(fields.drop_last());
        let last = fields.last();
        assert(!last.contains(',')) by {
            assert forall|j: int| 0 <= j < last.len() implies last[j] != ',' by {
                assert(fields[fields.len() - 1][j] != ',');
            }
        }
        lemma_clean_hashtag_lacks(last, ',');
        let init = collect_hashtags(fields.drop_last());
        let all = collect_hashtags(fields);
        assert forall|i: int| 0 <= i < all.len() implies {
            let t = #[trigger] all[i];
            &&& t.len() > 0
            &&& !t.contains('#')
            &&& !t.contains(',')
        } by {
            if i < init.len() {
                assert(all[i] == init[i]);
            } else {
                assert(all[i] == clean_hashtag(last));
            }
        }
    }
}

/// Every hashtag parsed from an input, whatever the input, is non-empty and
/// holds neither `#` nor `,`.
pub proof fn lemma_hashtags_well_formed(s: Seq<char>)
    ensures
        forall|i: int|
            0 <= i < hashtags_of(s).len() ==> {
                let t = #[trigger] hashtags_of(s)[i];
                &&& t.len() > 0
                &&& !t.contains('#')
                &&& !t.contains(',')
            },
{
    lemma_split_on_fields_lack_sep(s, ',');
    lemma_collect_well_formed(split_on(s, ','));
}

pub open spec fn hashtags_error(s: Seq<char>) -> Option<Seq<char>> {
    if s.len() == 0 {
        Some("Hashtags are required"@)
    } else if hashtags_of(s).len() > MAX_HASHTAGS {
        Some("Only a maximum of 8 hashtags are allowed"@)
    } else {
        None
    }
}

/// A non-empty hashtag input is refused for its count exactly when more than
/// eight cleaned, non-empty hashtags remain: empty fields never count.
pub proof fn lemma_hashtag_count_limit(s: Seq<char>)
    requires
        s.len() > 0,
    ensures
        hashtags_of(s).len() <= 8 ==> hashtags_error(s) is None,
        hashtags_of(s).len() > 8 ==> hashtags_error(s) == Some(
            "Only a maximum of 8 hashtags are allowed"@,
        ),
{
}

/// Fields that clean to nothing are not hashtags: adding an empty field at
/// the end of an input (a trailing comma) changes neither its hashtags nor
/// whether it is accepted.
pub proof fn lemma_trailing_comma_ignored(s: Seq<char>)
    requires
        s.len() > 0,
    ensures
        hashtags_of(s.push(',')) == hashtags_of(s),
        hashtags_error(s.push(',')) == hashtags_error(s),
{
    assert(s.push(',').drop_last() =~= s);
    crate::text::lemma_split_on_nonempty(s, ',');
    let f = split_on(s, ',');
    assert(split_on(s.push(','), ',') == f.push(Seq::<char>::empty()));
    assert(f.push(Seq::<char>::empty()).drop_last() =~= f);
    reveal_with_fuel(trim_start, 1);
    reveal_with_fuel(trim_end, 1);
    assert(trim(Seq::<char>::empty()) =~= Seq::<char>::empty());
    assert(remove_char(Seq::<char>::empty(), '#') =~= Seq::<char>::empty()) by {
        reveal_with_fuel(Seq::filter, 1);
    }
    assert(clean_hashtag(Seq::<char>::empty()).len() == 0);
}

/// Checks and parses the hashtag input: it must not be empty, and it may
/// name at most eight hashtags. Returns the cleaned hashtags.
pub fn hashtags_validator(hashtags: String) -> (r: Result<Vec<String>, String>)
    ensures
        match r {
            Ok(v) => hashtags_error(hashtags@) is None && string_views(v@) == hashtags_of(
                hashtags@,
            ),
            Err(e) => hashtags_error(hashtags@) == Some(e@),
        },
{
    if hashtags.as_str().is_empty() {
        return Err(owned("Hashtags are required"));
    }
    let tags = parse_hashtags(hashtags.as_str());
    assert(tags@.len() == hashtags_of(hashtags@).len());
    if tags.len() > MAX_HASHTAGS {
        return Err(owned("Only a maximum of 8 hashtags are allowed"));
    }
    Ok(tags)
}

/// The rejection of an upload request, if any: a description shorter than
/// ten bytes, or more than eight hashtags.
pub open spec fn upload_request_error(description: Seq<char>, hashtag_count: nat) -> Option<
    Seq<char>,
> {
    if vstd::utf8::encode_utf8(description).len() < MIN_DESCRIPTION_BYTES {
        Some("Description must be at least 10 characters"@)
    } else if hashtag_count > MAX_HASHTAGS {
        Some("Too many hashtags"@)
    } else {
        None
    }
}

/// The checks made on the server before an upload slot is handed out.
pub fn check_upload_request(description: &str, hashtags: &Vec<String>) -> (r: Result<(), String>)
    ensures
        match r {
            Ok(()) => upload_request_error(description@, hashtags@.len()) is None,
            Err(e) => upload_request_error(description@, hashtags@.len()) == Some(e@),
        },
{
    if description.as_bytes().len() < MIN_DESCRIPTION_BYTES {
        return Err(owned("Description must be at least 10 characters"));
    }
    if hashtags.len() > MAX_HASHTAGS {
        return Err(owned("Too many hashtags"));
    }
    Ok(())
}

/// What the form's validators accept, the server's check accepts: a
/// description and hashtag input that pass `description_validator` and
/// `hashtags_validator` make an upload request that is not refused.
pub proof fn lemma_validated_upload_is_accepted(description: Seq<char>, hashtags: Seq<char>)
    requires
        description_error(description) is None,
        hashtags_error(hashtags) is None,
    ensures
        upload_request_error(description, hashtags_of(hashtags).len()) is None,
{
}

/// The strings of `list` joined with `sep` between neighbours.
pub open spec fn join_with(list: Seq<Seq<char>>, sep: Seq<char>) -> Seq<char>
    decreases list.len(),
{
    if list.len() == 0 {
        Seq::empty()
    } else if list.len() == 1 {
        list[0]
    } else {
        join_with(list.drop_last(), sep) + sep + list.last()
    }
}

/// The hashtags as one comma-separated string, the form in which they are
/// stored with the video.
pub fn join_hashtags(tags: &Vec<String>) -> (r: String)
    ensures
        r@ == join_with(string_views(tags@), ","@),
{
    let mut r = String::new();
    let mut i: usize = 0;
    while i < tags.len()
        invariant
            i <= tags@.len(),
            r@ == join_with(string_views(tags@).subrange(0, i as int), ","@),
        decreases tags@.len() - i,
    {
        let ghost views = string_views(tags@);
        assert(views.subrange(0, i + 1).drop_last() =~= views.subrange(0, i as int));
        assert(views.subrange(0, i + 1).last() == tags@[i as int]@);
        if i > 0 {
            push_char(&mut r, ',');
            assert(","@ =~= seq![','] ) by { reveal_strlit(","); }
        } else {
            assert(views.subrange(0, 1)[0] == tags@[0]@);
        }
        append_str(&mut r, tags[i].as_str());
        if i == 0 {
            assert(r@ =~= tags@[0]@);
        }
        i = i + 1;
    }
    assert(string_views(tags@).subrange(0, tags@.len() as int) =~= string_views(tags@));
    r
}

/// The text a video's details are stored with: the description as title and
/// as description, and the hashtags joined with commas.
pub struct VideoMetadata {
    pub title: String,
    pub description: String,
    pub tags: String,
}

/// The metadata stored with an uploaded video.
pub fn video_metadata(description: &str, hashtags: &Vec<String>) -> (r: VideoMetadata)
    ensures
        r.title@ == description@,
        r.description@ == description@,
        r.tags@ == join_with(string_views(hashtags@), ","@),
{
    VideoMetadata { title: owned(description), description: owned(description), tags: join_hashtags(hashtags) }
}

/// The metadata attached to a request for a direct upload slot, as pairs of
/// key and value: the joined hashtags, the description, the file's name and
/// the upload's type.
pub fn direct_upload_meta(hashtags: &Vec<String>, description: &str, file_name: &str) -> (r: Vec<
    (String, String),
>)
    ensures
        r@.len() == 4,
        r@[0].0@ == "hashtags"@ && r@[0].1@ == join_with(string_views(hashtags@), ","@),
        r@[1].0@ == "description"@ && r@[1].1@ == description@,
        r@[2].0@ == "fileName"@ && r@[2].1@ == file_name@,
        r@[3].0@ == "uploadType"@ && r@[3].1@ == "challenge"@,
{
    let mut r: Vec<(String, String)> = Vec::new();
    r.push((owned("hashtags"), join_hashtags(hashtags)));
    r.push((owned("description"), owned(description)));
    r.push((owned("fileName"), owned(file_name)));
    r.push((owned("uploadType"), owned("challenge")));
    r
}

/// The longest video accepted, in seconds.
pub const MAX_VIDEO_SECONDS: u64 = 60;

/// Whether a video's processing state is final: the video is ready.
pub fn video_is_ready(state: &str) -> (r: bool)
    ensures
        r == (state@ == "ready"@),
{
    let a = chars_of(state);
    let b = chars_of("ready");
    text_equals(&a, &b)
}

/// The upload address from the upload service's reply, or the error that
/// the reply names none.
pub fn upload_url_of(upload_url: Option<String>) -> (r: Result<String, String>)
    ensures
        match upload_url {
            Some(u) => r matches Ok(v) && v@ == u@,
            None => r matches Err(e) && e@ == "Upload URL not found in response"@,
        },
{
    match upload_url {
        Some(u) => Ok(u),
        None => Err(owned("Upload URL not found in response")),
    }
}

/// The error when the upload service did not give an upload address.
pub fn upload_url_status_error(status: u16) -> (r: String)
    ensures
        r@ == "Failed to get upload URL: status "@ + decimal(status as nat),
{
    let mut r = owned("Failed to get upload URL: status ");
    push_decimal(&mut r, status as u128);
    r
}

/// The error when the upload itself was refused.
pub fn upload_failed_error(status: u16, status_text: &str) -> (r: String)
    ensures
        r@ == "Upload request failed: status "@ + decimal(status as nat) + " "@ + status_text@,
{
    let mut r = owned("Upload request failed: status ");
    push_decimal(&mut r, status as u128);
    append_str(&mut r, " ");
    append_str(&mut r, status_text);
    r
}

/// The details of a post as the page hands them to the upload service.
pub struct SerializablePostDetailsFromFrontend {
    pub is_nsfw: bool,
    pub hashtags: Vec<String>,
    pub description: String,
    pub video_uid: String,
    pub creator_consent_for_inclusion_in_hot_or_not: bool,
}

/// The post details of an upload, as the form gave them.
pub fn post_details_from_form(
    is_nsfw: bool,
    hashtags: Vec<String>,
    description: String,
    video_uid: String,
    enable_hot_or_not: bool,
) -> (r: SerializablePostDetailsFromFrontend)
    ensures
        r.is_nsfw == is_nsfw,
        r.hashtags@ == hashtags@,
        r.description@ == description@,
        r.video_uid@ == video_uid@,
        r.creator_consent_for_inclusion_in_hot_or_not == enable_hot_or_not,
{
    SerializablePostDetailsFromFrontend {
        is_nsfw,
        hashtags,
        description,
        video_uid,
        creator_consent_for_inclusion_in_hot_or_not: enable_hot_or_not,
    }
}

/// Where a video is uploaded: its id and the address to send it to.
pub struct UploadInfo {
    pub uid: String,
    pub upload_url: String,
}

/// The upload slot handed out when no video service is configured.
pub fn mock_upload_info() -> (r: UploadInfo)
    ensures
        r.uid@ == "mock"@,
        r.upload_url@ == "http://mock.com"@,
{
    UploadInfo { uid: owned("mock"), upload_url: owned("http://mock.com") }
}

/// Splitting `s + t`, where `t` holds no separator, extends the last field of
/// `s` by `t`.
proof fn lemma_split_on_append(s: Seq<char>, t: Seq<char>, sep: char)
    requires
        !t.contains(sep),
    ensures
        split_on(s + t, sep) == split_on(s, sep).update(
            split_on(s, sep).len() - 1,
            split_on(s, sep).last() + t,
        ),
    decreases t.len(),
{
    crate::text::lemma_split_on_nonempty(s, sep);
    let f = split_on(s, sep);
    if t.len() == 0 {
        assert(s + t =~= s);
        assert(f.update(f.len() - 1, f.last() + t) =~= f);
    } else {
        let t0 = t.drop_last();
        let c = t.last();
        assert(!t0.contains(sep)) by {
            if t0.contains(sep) {
                let k = choose|k: int| 0 <= k < t0.len() && t0[k] == sep;
                assert(t[k] == sep);
            }
        }
        assert(c != sep) by {
            assert(t[t.len() - 1] == c);
        }
        lemma_split_on_append(s, t0, sep);
        assert((s + t).drop_last() =~= s + t0);
        assert((s + t).last() == c);
        let g = split_on(s + t0, sep);
        assert(g.len() == f.len());
        assert(split_on(s + t, sep) == g.update(g.len() - 1, g.last().push(c)));
        assert(g.last() == f.last() + t0);
        assert((f.last() + t0).push(c) =~= f.last() + t);
        assert(g.update(g.len() - 1, g.last().push(c)) =~= f.update(f.len() - 1, f.last() + t));
    }
}

/// Splitting tags joined with commas gives the tags back, when none holds a
/// comma.
proof fn lemma_split_join(v: Seq<Seq<char>>)
    requires
        v.len() > 0,
        forall|i: int| 0 <= i < v.len() ==> !(#[trigger] v[i]).contains(','),
    ensures
        split_on(join_with(v, ","@), ',') == v,
    decreases v.len(),
{
    reveal_strlit(",");
    if v.len() == 1 {
        lemma_split_on_append(Seq::empty(), v[0], ',');
        assert(Seq::<char>::empty() + v[0] =~= v[0]);
        assert(split_on(Seq::<char>::empty(), ',') =~= seq![Seq::<char>::empty()]);
        assert(seq![Seq::<char>::empty()].update(0, Seq::<char>::empty() + v[0]) =~= v);
    } else {
        let init = v.drop_last();
        assert forall|i: int| 0 <= i < init.len() implies !(#[trigger] init[i]).contains(',') by {
            assert(init[i] == v[i]);
        }
        lemma_split_join(init);
        let j = join_with(init, ","@);
        assert(","@ =~= seq![',']);
        assert(j + ","@ =~= j.push(','));
        assert(join_with(v, ","@) == j + ","@ + v.last());
        assert(split_on(j.push(','), ',') == split_on(j, ',').push(Seq::empty())) by {
            assert(j.push(',').drop_last() =~= j);
        }
        assert(!v.last().contains(',')) by {
            assert(v[v.len() - 1] == v.last());
        }
        lemma_split_on_append(j.push(','), v.last(), ',');
        assert(Seq::<char>::empty() + v.last() =~= v.last());
        assert(init.push(Seq::<char>::empty()).update(init.len() as int, Seq::<char>::empty() + v.last()) =~= v);
    }
}

/// `remove_char` leaves a text without that character unchanged.
proof fn lemma_remove_absent(t: Seq<char>, c: char)
    requires
        !t.contains(c),
    ensures
        remove_char(t, c) == t,
    decreases t.len(),
{
    reveal_with_fuel(Seq::filter, 1);
    if t.len() > 0 {
        assert(!t.drop_last().contains(c)) by {
            if t.drop_last().contains(c) {
                let k = choose|k: int| 0 <= k < t.drop_last().len() && t.drop_last()[k] == c;
                assert(t[k] == c);
            }
        }
        lemma_remove_absent(t.drop_last(), c);
        assert(t.last() != c) by {
            assert(t[t.len() - 1] == t.last());
        }
        assert(t.drop_last().push(t.last()) =~= t);
    }
}

/// Collecting tags that are already clean gives them back.
proof fn lemma_collect_clean(v: Seq<Seq<char>>)
    requires
        forall|i: int|
            0 <= i < v.len() ==> {
                let t = #[trigger] v[i];
                &&& t.len() > 0
                &&& !t.contains('#')
                &&& trim(t) == t
            },
    ensures
        collect_hashtags(v) == v,
    decreases v.len(),
{
    if v.len() > 0 {
        let init = v.drop_last();
        assert forall|i: int| 0 <= i < init.len() implies {
            let t = #[trigger] init[i];
            &&& t.len() > 0
            &&& !t.contains('#')
            &&& trim(t) == t
        } by {
            assert(init[i] == v[i]);
        }
        lemma_collect_clean(init);
        let t = v.last();
        assert(t == v[v.len() - 1]);
        lemma_remove_absent(t, '#');
        assert(clean_hashtag(t) == t);
        assert(init.push(t) =~= v);
    }
}

/// Validating again an accepted list of hashtags, joined with commas as the
/// page stores them, gives the same list back when the list is not empty and
/// no tag has whitespace at either end.
pub proof fn lemma_hashtags_revalidate(h: Seq<char>)
    requires
        hashtags_error(h) is None,
        hashtags_of(h).len() > 0,
        forall|i: int| 0 <= i < hashtags_of(h).len() ==> trim(#[trigger] hashtags_of(h)[i])
            == hashtags_of(h)[i],
    ensures
        hashtags_error(join_with(hashtags_of(h), ","@)) is None,
        hashtags_of(join_with(hashtags_of(h), ","@)) == hashtags_of(h),
{
    let v = hashtags_of(h);
    lemma_hashtags_well_formed(h);
    assert forall|i: int| 0 <= i < v.len() implies !(#[trigger] v[i]).contains(',') by {
        let t = v[i];
        assert(!t.contains(','));
    }
    lemma_split_join(v);
    assert forall|i: int|
        0 <= i < v.len() implies {
            let t = #[trigger] v[i];
            &&& t.len() > 0
            &&& !t.contains('#')
            &&& trim(t) == t
        } by {
        let t = v[i];
        assert(t.len() > 0 && !t.contains('#'));
    }
    lemma_collect_clean(v);
    let j = join_with(v, ","@);
    assert(j.len() > 0) by {
        reveal_strlit(",");
        if v.len() == 1 {
            assert(v[0].len() > 0);
        } else {
            assert(j == join_with(v.drop_last(), ","@) + ","@ + v.last());
        }
    }
}

} // verus!
