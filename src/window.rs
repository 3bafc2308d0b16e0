use vstd::prelude::*;

verus! {

/// The state of the "save file" dialog, borrowed from its owner: whether it
/// is open, and the file name typed so far.
pub struct SaveWindow<'a> {
    pub open: &'a mut bool,
    pub file_name: &'a mut Option<String>,
}

impl<'a> SaveWindow<'a> {
    pub fn new(open: &'a mut bool, file_name: &'a mut Option<String>) -> (w: SaveWindow<'a>)
        ensures
            *w.open == *old(open),
            *w.file_name == *old(file_name),
            *final(open) == *final(w.open),
            *final(file_name) == *final(w.file_name),
    {
        SaveWindow { open, file_name }
    }
}

/// The name that the "save file" dialog offers: the current one, else "unnamed".
pub open spec fn save_name(current: Option<String>) -> Seq<char> {
    match current {
        Some(n) => n@,
        None => "unnamed"@,
    }
}

/// Whether one of `saves` reads `name`.
pub open spec fn lists(saves: Seq<String>, name: Seq<char>) -> bool {
    exists|i: int| 0 <= i < saves.len() && (#[trigger] saves[i])@ == name
}

/// The name that the "open file" dialog offers: the current one where it is
/// among the saves, else the first save, else "no saves".
pub open spec fn open_name(current: Option<String>, saves: Seq<String>) -> Seq<char> {
    match current {
        Some(n) if lists(saves, n@) => n@,
        _ => if saves.len() > 0 {
            saves[0]@
        } else {
            "no saves"@
        },
    }
}

impl<'a> SaveWindow<'a> {
    /// The file name to show when the dialog opens.
    pub fn shown_name(&self) -> (r: String)
        ensures
            r@ == save_name(*old(self.file_name)),
    {
        match &*self.file_name {
            Some(n) => n.clone(),
            None => "unnamed".to_owned(),
        }
    }
}

/// The state of the "open file" dialog, borrowed from its owner: whether it
/// is open, and the name of the save picked so far.
pub struct OpenWindow<'a> {
    pub open: &'a mut bool,
    pub file_name: &'a mut Option<String>,
}

impl<'a> OpenWindow<'a> {
    pub fn new(open: &'a mut bool, file_name: &'a mut Option<String>) -> (w: OpenWindow<'a>)
        ensures
            *w.open == *old(open),
            *w.file_name == *old(file_name),
            *final(open) == *final(w.open),
            *final(file_name) == *final(w.file_name),
    {
        OpenWindow { open, file_name }
    }

    /// The save name to show when the dialog opens, given the names of the
    /// saves on offer.
    pub fn shown_name(&self, saves: &Vec<String>) -> (r: String)
        ensures
            r@ == open_name(*old(self.file_name), saves@),
    {
        if let Some(n) = &*self.file_name {
            let mut found = false;
            let len = saves.len();
            for i in 0..len
                invariant
                    len == saves@.len(),
                    found == exists|j: int| 0 <= j < i && (#[trigger] saves@[j])@ == n@,
            {
                if saves[i] == *n {
                    found = true;
                }
            }
            if found {
                return n.clone();
            }
        }
        if saves.len() > 0 {
            saves[0].clone()
        } else {
            "no saves".to_owned()
        }
    }
}

} // verus!
