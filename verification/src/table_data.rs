//! Fictional row data for the example table drawn inside a tool window.

use vstd::prelude::*;

verus! {

/// One fictional table row.
#[derive(Clone, Copy, Debug)]
pub struct TableRow {
    pub index: usize,
    pub name: &'static str,
    pub path: &'static str,
}

/// Static rows for the example table: six rows, numbered from one.
pub fn fake_data() -> (r: Vec<TableRow>)
    ensures
        r@.len() == 6,
        forall|i: int| 0 <= i < 6 ==> (#[trigger] r@[i]).index == i + 1,
        r@[0].name@ == "Alpha"@ && r@[0].path@ == "/alpha/file.txt"@,
        r@[1].name@ == "Beta"@ && r@[1].path@ == "/beta/image.png"@,
        r@[2].name@ == "Gamma"@ && r@[2].path@ == "/gamma/document.docx"@,
        r@[3].name@ == "Delta"@ && r@[3].path@ == "/delta/music.mp3"@,
        r@[4].name@ == "Epsilon"@ && r@[4].path@ == "/epsilon/video.mp4"@,
        r@[5].name@ == "Zeta"@ && r@[5].path@ == "/zeta/presentation.pptx"@,
{
    let rows: Vec<TableRow> = vec![
        TableRow { index: 1, name: "Alpha", path: "/alpha/file.txt" },
        TableRow { index: 2, name: "Beta", path: "/beta/image.png" },
        TableRow { index: 3, name: "Gamma", path: "/gamma/document.docx" },
        TableRow { index: 4, name: "Delta", path: "/delta/music.mp3" },
        TableRow { index: 5, name: "Epsilon", path: "/epsilon/video.mp4" },
        TableRow { index: 6, name: "Zeta", path: "/zeta/presentation.pptx" },
    ];
    rows
}

} // verus!
