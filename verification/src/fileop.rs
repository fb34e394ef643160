//! The prompt: which files count as source code, and how the files that were
//! gathered are laid out as one text.

use vstd::prelude::*;
use vstd::string::*;
use crate::error::ErrorKind;
use crate::json::{json_quoted, quote};
use crate::text::same_text;

verus! {

/// Whether `extension` is that of a source file in Go, Rust, C, C++, Java or
/// Python. The extension comes without its dot and is compared as it is
/// written.
pub open spec fn source_extension(extension: Seq<char>) -> bool {
    ||| extension == "go"@
    ||| extension == "rs"@
    ||| extension == "c"@
    ||| extension == "cpp"@
    ||| extension == "java"@
    ||| extension == "py"@
}

/// Whether a file with this extension is listed as source code.
pub fn is_source_extension(extension: &str) -> (listed: bool)
    ensures
        listed == source_extension(extension@),
{
    same_text(extension, "go") || same_text(extension, "rs") || same_text(extension, "c")
        || same_text(extension, "cpp") || same_text(extension, "java") || same_text(
        extension,
        "py",
    )
}

/// The name of a file and what it holds.
#[derive(Debug)]
pub struct FileContent {
    pub name: String,
    pub content: String,
}

impl View for FileContent {
    type V = (Seq<char>, Seq<char>);

    open spec fn view(&self) -> (Seq<char>, Seq<char>) {
        (self.name@, self.content@)
    }
}

/// The files of a list, each as its name and its content.
pub open spec fn files_view(files: Seq<FileContent>) -> Seq<(Seq<char>, Seq<char>)> {
    Seq::new(files.len(), |i: int| files[i]@)
}

/// The JSON object of one file: its name, then its content.
pub open spec fn file_json(file: (Seq<char>, Seq<char>)) -> Option<Seq<char>> {
    match (json_quoted(file.0), json_quoted(file.1)) {
        (Some(name), Some(content)) => Some(
            "{\"name\":"@ + name + ",\"content\":"@ + content + "}"@,
        ),
        _ => None,
    }
}

/// The JSON objects of `files` in order, separated by commas. `None` where
/// a name or a content cannot be written.
pub open spec fn file_list_json(files: Seq<(Seq<char>, Seq<char>)>) -> Option<Seq<char>>
    decreases files.len(),
{
    if files.len() == 0 {
        Some(Seq::empty())
    } else {
        match (file_list_json(files.drop_last()), file_json(files.last())) {
            (Some(front), Some(last)) => Some(
                if files.len() == 1 {
                    last
                } else {
                    front + ","@ + last
                },
            ),
            _ => None,
        }
    }
}

/// The prompt text for `files`: one JSON array of their objects, in order and
/// without insignificant whitespace.
pub open spec fn files_json(files: Seq<(Seq<char>, Seq<char>)>) -> Option<Seq<char>> {
    match file_list_json(files) {
        Some(list) => Some("["@ + list + "]"@),
        None => None,
    }
}

/// A list of files can be written only if each of its files can.
pub proof fn lemma_file_list_needs_each(files: Seq<(Seq<char>, Seq<char>)>, k: int)
    requires
        0 <= k < files.len(),
        file_json(files[k]) is None,
    ensures
        file_list_json(files) is None,
    decreases files.len(),
{
    if k < files.len() - 1 {
        lemma_file_list_needs_each(files.drop_last(), k);
    }
}

/// Lays the gathered files out as the prompt text. Fails with
/// [`ErrorKind::Aggregation`] exactly where a name or a content cannot be
/// written.
pub fn aggregate(files: &Vec<FileContent>) -> (prompt: Result<String, ErrorKind>)
    ensures
        match prompt {
            Ok(text) => files_json(files_view(files@)) == Some(text@),
            Err(kind) => kind == ErrorKind::Aggregation && files_json(files_view(files@)) is None,
        },
{
    let ghost all = files_view(files@);
    let mut text = String::from_str("[");
    let ghost mut list = Seq::<char>::empty();
    let mut i: usize = 0;
    while i < files.len()
        invariant
            i <= files.len(),
            all == files_view(files@),
            file_list_json(all.take(i as int)) == Some(list),
            text@ == "["@ + list,
        decreases files.len() - i,
    {
        let file = &files[i];
        let ghost front = all.take(i as int);
        let ghost upto = all.take(i + 1);
        assert(upto.drop_last() =~= front);
        assert(upto.last() == file@);
        let name = quote(file.name.as_str());
        let content = quote(file.content.as_str());
        match (name, content) {
            (Ok(name), Ok(content)) => {
                if i > 0 {
                    text.append(",");
                }
                text.append("{\"name\":");
                text.append(name.as_str());
                text.append(",\"content\":");
                text.append(content.as_str());
                text.append("}");
                proof {
                    list = file_list_json(upto)->0;
                }
                assert(text@ =~= "["@ + list);
            },
            _ => {
                proof {
                    lemma_file_list_needs_each(all, i as int);
                }
                return Err(ErrorKind::Aggregation);
            },
        }
        i += 1;
    }
    assert(all.take(i as int) =~= all);
    text.append("]");
    Ok(text)
}

} // verus!
