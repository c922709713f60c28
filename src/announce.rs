use crate::rules::Category;
use vstd::prelude::*;

verus! {

/// The headline after the contest name, by category.
pub open spec fn headline(category: Category) -> Seq<char> {
    match category {
        Category::Literature => "에 새 글이 등록되었어요!\n> "@,
        Category::Art => "에 새 그림이 등록되었어요!\n> "@,
    }
}

/// The warning line of an entry marked not safe for work.
pub open spec fn nsfw_line(is_nsfw: bool) -> Seq<char> {
    if is_nsfw {
        "**!!!NSFW!!!**\n"@
    } else {
        Seq::empty()
    }
}

/// The note that announces a new entry: the contest name in bold, the
/// headline, the author and title, a warning line for entries not safe for
/// work, and the link.
pub fn announcement(
    contest_name: &str,
    category: Category,
    author_handle: &str,
    author_instance: &str,
    title: &str,
    is_nsfw: bool,
    url: &str,
) -> (r: String)
    ensures
        r@ == "**"@ + contest_name@ + "**"@ + headline(category) + author_handle@ + "@"@
            + author_instance@ + " - "@ + title@ + "\n"@ + nsfw_line(is_nsfw) + "보러가기: "@
            + url@,
{
    let mut s = String::from_str("**");
    s.append(contest_name);
    s.append("**");
    match category {
        Category::Literature => s.append("에 새 글이 등록되었어요!\n> "),
        Category::Art => s.append("에 새 그림이 등록되었어요!\n> "),
    }
    s.append(author_handle);
    s.append("@");
    s.append(author_instance);
    s.append(" - ");
    s.append(title);
    s.append("\n");
    let ghost before = s@;
    if is_nsfw {
        s.append("**!!!NSFW!!!**\n");
    } else {
        assert(before + nsfw_line(is_nsfw) =~= before);
    }
    s.append("보러가기: ");
    s.append(url);
    s
}

} // verus!
