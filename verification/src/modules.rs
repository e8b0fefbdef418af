//! The modules that a compiled set gives: for every file outside the
//! package of the built-in descriptors, its encoding, its typing stub, and
//! the packages it depends on.

use crate::descriptor::{views, FileDescriptor, FileDescriptorSet, FileView};
use crate::text::same_text;
use crate::typing_stub::{file_stub, generate_typing_stub};
use vstd::prelude::*;

verus! {

/// The package of the built-in descriptors; its files give no module.
pub const BUILTIN_PACKAGE: &'static str = "google.protobuf";

/// One module: an encoded file with what a loader needs to know of it.
#[derive(Debug, PartialEq)]
pub struct PythonProtoxyModule {
    pub fd: Vec<u8>,
    pub typing_stub: String,
    pub name: String,
    pub package: String,
    pub dep_names: Vec<String>,
}

/// Model of a [`PythonProtoxyModule`].
pub struct ModuleView {
    pub fd: Seq<u8>,
    pub typing_stub: Seq<char>,
    pub name: Seq<char>,
    pub package: Seq<char>,
    pub dep_names: Seq<Seq<char>>,
}

impl View for PythonProtoxyModule {
    type V = ModuleView;

    open spec fn view(&self) -> ModuleView {
        ModuleView {
            fd: self.fd@,
            typing_stub: self.typing_stub@,
            name: self.name@,
            package: self.package@,
            dep_names: views(self.dep_names@),
        }
    }
}

/// Whether every file of the set names its package.
pub open spec fn packages_known(files: Seq<FileView>) -> bool {
    forall|i: int| 0 <= i < files.len() ==> (#[trigger] files[i]).package is Some
}

/// The package of the file called `name`: of the last one, where several
/// files have that name; nothing where none has it.
pub open spec fn package_of(files: Seq<FileView>, name: Seq<char>) -> Option<Seq<char>>
    decreases files.len(),
{
    if files.len() == 0 {
        None
    } else if files.last().name == name {
        files.last().package
    } else {
        package_of(files.drop_last(), name)
    }
}

/// The packages of the first `count` of `dependency` that the set holds, in
/// the order of `dependency`.
pub open spec fn dependency_packages(
    files: Seq<FileView>,
    dependency: Seq<Seq<char>>,
    count: nat,
) -> Seq<Seq<char>>
    decreases count,
{
    if count == 0 {
        Seq::empty()
    } else {
        let before = dependency_packages(files, dependency, (count - 1) as nat);
        match package_of(files, dependency[count - 1]) {
            Some(package) => before.push(package),
            None => before,
        }
    }
}

/// Whether a file belongs to the package of the built-in descriptors.
pub open spec fn is_builtin(file: FileView) -> bool {
    file.package == Some(BUILTIN_PACKAGE@)
}

/// The module of one file of the set, given its encoding.
pub open spec fn module_of(files: Seq<FileView>, file: FileView, fd: Seq<u8>) -> ModuleView {
    ModuleView {
        fd,
        typing_stub: file_stub(file),
        name: file.name,
        package: file.package->0,
        dep_names: dependency_packages(files, file.dependency, file.dependency.len()),
    }
}

/// Looks up the package of the file called `name`.
pub fn find_package<'a>(set: &'a FileDescriptorSet, name: &str) -> (package: Option<&'a String>)
    ensures
        match package {
            Some(p) => package_of(set@.file, name@) == Some(p@),
            None => package_of(set@.file, name@) is None,
        },
{
    let mut i = set.file.len();
    assert(set@.file.subrange(0, i as int) =~= set@.file);
    while i > 0
        invariant
            i <= set.file@.len(),
            package_of(set@.file, name@) == package_of(set@.file.subrange(0, i as int), name@),
        decreases i,
    {
        i -= 1;
        let ghost upto = set@.file.subrange(0, i + 1);
        assert(upto.last() == set.file@[i as int]@);
        assert(upto.drop_last() =~= set@.file.subrange(0, i as int));
        if same_text(set.file[i].name.as_str(), name) {
            return set.file[i].package.as_ref();
        }
    }
    None
}

/// The packages that `file` depends on, as far as the set holds them.
pub fn dependency_names(set: &FileDescriptorSet, file: &FileDescriptor) -> (names: Vec<String>)
    ensures
        views(names@) == dependency_packages(
            set@.file,
            file@.dependency,
            file@.dependency.len(),
        ),
{
    let mut names: Vec<String> = Vec::new();
    let mut i: usize = 0;
    while i < file.dependency.len()
        invariant
            i <= file.dependency@.len(),
            views(names@) == dependency_packages(
                set@.file,
                file@.dependency,
                i as nat,
            ),
        decreases file.dependency@.len() - i,
    {
        let ghost before = views(names@);
        if let Some(package) = find_package(set, file.dependency[i].as_str()) {
            names.push(package.clone());
            assert(views(names@) =~= before.push(package@));
        }
        i += 1;
    }
    names
}

/// Tells whether a file belongs to the package of the built-in descriptors.
pub fn is_builtin_package(file: &FileDescriptor) -> (builtin: bool)
    ensures
        builtin == is_builtin(file@),
{
    match &file.package {
        Some(package) => same_text(package.as_str(), BUILTIN_PACKAGE),
        None => false,
    }
}

/// Builds the module of the file at `index` from its encoding `fd`; a file
/// of the built-in package gives none.
pub fn python_module(set: &FileDescriptorSet, index: usize, fd: Vec<u8>) -> (module: Option<
    PythonProtoxyModule,
>)
    requires
        index < set.file@.len(),
        packages_known(set@.file),
    ensures
        match module {
            Some(m) => !is_builtin(set@.file[index as int]) && m@ == module_of(
                set@.file,
                set@.file[index as int],
                fd@,
            ),
            None => is_builtin(set@.file[index as int]),
        },
{
    let file = &set.file[index];
    if is_builtin_package(file) {
        return None;
    }
    match &file.package {
        Some(package) => Some(
            PythonProtoxyModule {
                fd,
                typing_stub: generate_typing_stub(file),
                name: file.name.clone(),
                package: package.clone(),
                dep_names: dependency_names(set, file),
            },
        ),
        None => None,
    }
}

} // verus!
