//! The boot ROM image and where it is found.
use vstd::prelude::*;
use crate::mmu::Mmu;

verus! {

/// What a path holds: its components in order (`Path::components`), each
/// as the bytes of `Component::as_os_str`.
pub uninterp spec fn path_components(p: std::path::PathBuf) -> Seq<Seq<u8>>;

/// A plain file name: one or more ASCII letters, digits, dots, underscores
/// or hyphens, and neither `.` nor `..`. Such a name is one normal path
/// component on every platform.
pub open spec fn is_file_name(s: Seq<char>) -> bool {
    &&& s.len() > 0
    &&& forall|i: int|
        0 <= i < s.len() ==> {
            let c = #[trigger] s[i];
            ('a' <= c <= 'z') || ('A' <= c <= 'Z') || ('0' <= c <= '9') || c == '.' || c == '_'
                || c == '-'
        }
    &&& s != seq!['.']
    &&& s != seq!['.', '.']
}

/// The bytes of an ASCII string.
pub open spec fn ascii_bytes(s: Seq<char>) -> Seq<u8> {
    Seq::new(s.len(), |i: int| s[i] as u8)
}

/// `dir.join(file)`, as `std::path::Path::join` builds it. Its documentation
/// (through `PathBuf::push`) says that joining a relative path extends the
/// path; a plain file name is relative and one component, so the components
/// of the result are those of `dir` followed by the name.
#[verifier::external_body]
fn join_file(dir: std::path::PathBuf, file: &str) -> (r: std::path::PathBuf)
    requires
        is_file_name(file@),
    ensures
        path_components(r) == path_components(dir).push(ascii_bytes(file@)),
{
    dir.join(file)
}

impl Mmu {
    /// Takes the bytes of the boot ROM, as read from its file.
    pub fn load_bios(&mut self, data: Vec<u8>)
        ensures
            final(self).bios@ == data@,
            *final(self) == (Mmu { bios: final(self).bios, ..*old(self) }),
    {
        self.bios = data;
    }

    /// Records that the boot ROM is the file `bios.gb` in the directory
    /// `bios_path`.
    pub fn set_bios_path(&mut self, bios_path: std::path::PathBuf)
        ensures
            path_components(final(self).bios_path) == path_components(bios_path).push(
                ascii_bytes("bios.gb"@),
            ),
            *final(self) == (Mmu { bios_path: final(self).bios_path, ..*old(self) }),
    {
        proof {
            reveal_strlit("bios.gb");
        }
        self.bios_path = join_file(bios_path, "bios.gb");
    }
}

} // verus!
