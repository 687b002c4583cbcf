use slipbox::paths::SubpageError;
use slipbox::paths::split_basename;
use slipbox::paths::subpage_link;
use slipbox::slug::title_to_filename;

#[test]
fn spaces_become_dashes_and_letters_lowercase() {
    assert_eq!(title_to_filename("Title of the Page", "md"), "title-of-the-page.md");
}

#[test]
fn spaced_slash_becomes_a_single_period() {
    assert_eq!(title_to_filename("A / B", "md"), "a.b.md");
}

#[test]
fn separator_runs_collapse_and_trailing_period_becomes_dash() {
    assert_eq!(title_to_filename("A: B, C.", "txt"), "a-b-c-.txt");
}

#[test]
fn bare_slash_becomes_a_period() {
    assert_eq!(title_to_filename("a/b", "md"), "a.b.md");
}

#[test]
fn empty_title_keeps_only_the_extension() {
    assert_eq!(title_to_filename("", "md"), ".md");
}

#[test]
fn unreplaced_characters_pass_through() {
    assert_eq!(title_to_filename("Hello_World-1", "md"), "hello_world-1.md");
}

#[test]
fn subpage_link_for_a_clipboard_title() {
    assert_eq!(
        subpage_link("/notes/foo.md", "My Idea"),
        Ok(String::from("[My Idea](/notes/foo.my-idea.md)"))
    );
}

#[test]
fn subpage_link_with_relative_source() {
    assert_eq!(subpage_link("foo.md", "My Idea"), Ok(String::from("[My Idea](foo.my-idea.md)")));
}

#[test]
fn subpage_link_needs_a_file_name() {
    assert_eq!(subpage_link("/notes/", "My Idea"), Err(SubpageError::NoFileName));
    assert_eq!(subpage_link("", "My Idea"), Err(SubpageError::NoFileName));
}

#[test]
fn subpage_link_needs_an_extension() {
    assert_eq!(subpage_link("/notes/foo", "My Idea"), Err(SubpageError::NoExtension));
    assert_eq!(subpage_link("/notes/.bashrc", "My Idea"), Err(SubpageError::NoExtension));
}

#[test]
fn split_basename_separates_directory_and_name() {
    assert_eq!(
        split_basename("/notes/foo.md"),
        (String::from("/notes"), String::from("foo.md"))
    );
    assert_eq!(split_basename("foo.md"), (String::from(""), String::from("foo.md")));
    assert_eq!(split_basename("/foo.md"), (String::from("/"), String::from("foo.md")));
}
