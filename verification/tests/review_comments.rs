use warp_tui::review_comments::{
    format_comment_target, format_location, CommentSide, InsertReviewComment,
    InsertedCommentLine, InsertedCommentLocation,
};

fn comment(
    id: &str,
    author: &str,
    body: &str,
    parent_id: Option<&str>,
    location: Option<InsertedCommentLocation>,
) -> InsertReviewComment {
    InsertReviewComment {
        comment_id: id.to_owned(),
        author: author.to_owned(),
        last_modified_timestamp: format!("2024-01-01T00:00:0{id}Z"),
        comment_body: body.to_owned(),
        parent_comment_id: parent_id.map(str::to_owned),
        comment_location: location,
        html_url: Some(format!("https://github.com/warp/warp/pull/1#comment-{id}")),
    }
}

#[test]
fn formats_pull_request_file_and_line_targets() {
    assert_eq!(
        format_comment_target(&comment("1", "alice", "body", None, None)),
        "Pull request"
    );
    assert_eq!(
        format_comment_target(&comment(
            "1",
            "alice",
            "body",
            None,
            Some(InsertedCommentLocation {
                relative_file_path: "src/main.rs".to_owned(),
                line: None,
            }),
        )),
        "src/main.rs"
    );
    assert_eq!(
        format_comment_target(&comment(
            "1",
            "alice",
            "body",
            None,
            Some(InsertedCommentLocation {
                relative_file_path: "src/main.rs".to_owned(),
                line: Some(InsertedCommentLine {
                    comment_line_range: 10..12,
                    side: Some(CommentSide::Right),
                }),
            }),
        )),
        "src/main.rs:10-12 (new)"
    );
    assert_eq!(
        format_comment_target(&comment(
            "1",
            "alice",
            "body",
            None,
            Some(InsertedCommentLocation {
                relative_file_path: "src/main.rs".to_owned(),
                line: Some(InsertedCommentLine {
                    comment_line_range: 15..15,
                    side: Some(CommentSide::Left),
                }),
            }),
        )),
        "src/main.rs:15 (old)"
    );
}

#[test]
fn open_ended_ranges_show_one_line_and_unknown_side_is_diff() {
    let at = |start: usize, end: usize, side: Option<CommentSide>| {
        format_location(&InsertedCommentLocation {
            relative_file_path: "a.rs".to_owned(),
            line: Some(InsertedCommentLine {
                comment_line_range: start..end,
                side,
            }),
        })
    };
    assert_eq!(at(0, 7, None), "a.rs:7 (diff)");
    assert_eq!(at(7, 0, None), "a.rs:7 (diff)");
    assert_eq!(at(0, 0, Some(CommentSide::Right)), "a.rs:0 (new)");
}
