//! Where the textures of a physically based material are found.
//!
//! A material named `stone` has its albedo map in `stone.png`. Its normal and
//! specular maps, when present, sit beside it under the name followed by an
//! underscore and a suffix, such as `stone_n.png`. Names are relative to a
//! base directory; whether a file is present is learnt from the file system
//! by the caller and handed in as the list of present file names.
use vstd::prelude::*;
use vstd::string::StringExecFns;

verus! {

/// The texture files of one material, relative to the base directory.
pub struct PbrTexturePath {
    pub albedo: String,
    pub normal: Option<String>,
    pub specular: Option<String>,
}

/// What a material's file names are.
pub struct PbrTexturePathView {
    pub albedo: Seq<char>,
    pub normal: Option<Seq<char>>,
    pub specular: Option<Seq<char>>,
}

impl View for PbrTexturePath {
    type V = PbrTexturePathView;

    open spec fn view(&self) -> PbrTexturePathView {
        PbrTexturePathView {
            albedo: self.albedo@,
            normal: match self.normal {
                Some(n) => Some(n@),
                None => None,
            },
            specular: match self.specular {
                Some(s) => Some(s@),
                None => None,
            },
        }
    }
}

/// The texture files of a list of materials, relative to `base`.
pub struct PbrTexturePaths {
    pub base: String,
    pub vec: Vec<PbrTexturePath>,
}

/// The albedo file of a material: its name with the `.png` extension.
pub open spec fn spec_albedo_file_name(name: Seq<char>) -> Seq<char> {
    name + ".png"@
}

/// A companion file of a material: its name, an underscore, the suffix and
/// the `.png` extension.
pub open spec fn spec_suffixed_file_name(name: Seq<char>, suffix: Seq<char>) -> Seq<char> {
    name + "_"@ + suffix + ".png"@
}

/// The file name if it is among the present ones.
pub open spec fn if_present(file: Seq<char>, present: Seq<Seq<char>>) -> Option<Seq<char>> {
    if present.contains(file) {
        Some(file)
    } else {
        None
    }
}

/// The files of the material `name`.
pub open spec fn spec_texture_path(
    name: Seq<char>,
    normal_suffix: Seq<char>,
    specular_suffix: Seq<char>,
    present: Seq<Seq<char>>,
) -> PbrTexturePathView {
    PbrTexturePathView {
        albedo: spec_albedo_file_name(name),
        normal: if_present(spec_suffixed_file_name(name, normal_suffix), present),
        specular: if_present(spec_suffixed_file_name(name, specular_suffix), present),
    }
}

/// The views of a list of strings.
pub open spec fn string_views(v: Seq<String>) -> Seq<Seq<char>> {
    v.map_values(|s: String| s@)
}

/// The albedo file of the material `name`.
pub fn albedo_file_name(name: &str) -> (r: String)
    ensures
        r@ == spec_albedo_file_name(name@),
{
    let mut r = String::from_str(name);
    r.append(".png");
    r
}

/// The file of the material `name` with the given suffix.
pub fn suffixed_file_name(name: &str, suffix: &str) -> (r: String)
    ensures
        r@ == spec_suffixed_file_name(name@, suffix@),
{
    let mut r = String::from_str(name);
    r.append("_");
    r.append(suffix);
    r.append(".png");
    r
}

/// Whether `file` is one of `present`.
fn is_present(file: &String, present: &[String]) -> (r: bool)
    ensures
        r == string_views(present@).contains(file@),
{
    let ghost views = string_views(present@);
    let mut k: usize = 0;
    while k < present.len()
        invariant
            k <= present.len(),
            views == string_views(present@),
            forall|m: int| 0 <= m < k ==> views[m] != file@,
        decreases present.len() - k,
    {
        if present[k].eq(file) {
            assert(views[k as int] == file@);
            return true;
        }
        k = k + 1;
    }
    assert(!views.contains(file@)) by {
        if views.contains(file@) {
            let m = choose|m: int| 0 <= m < views.len() && views[m] == file@;
            assert(views[m] != file@);
        }
    }
    false
}

fn keep_if_present(file: String, present: &[String]) -> (r: Option<String>)
    ensures
        match r {
            Some(f) => Some(f@),
            None => None::<Seq<char>>,
        } == if_present(file@, string_views(present@)),
{
    if is_present(&file, present) {
        Some(file)
    } else {
        None
    }
}

impl PbrTexturePaths {
    /// The files of each material in `names`, in order: the albedo map, and
    /// the normal and specular maps named with the given suffixes when they
    /// are among the `present` files.
    pub fn new_suffixed(
        base: &str,
        names: &[&str],
        normal_suffix: &str,
        specular_suffix: &str,
        present: &[String],
    ) -> (r: Self)
        ensures
            r.base@ == base@,
            r.vec.len() == names.len(),
            forall|k: int|
                0 <= k < names.len() ==> #[trigger] r.vec[k]@ == spec_texture_path(
                    names[k]@,
                    normal_suffix@,
                    specular_suffix@,
                    string_views(present@),
                ),
    {
        let mut vec: Vec<PbrTexturePath> = Vec::new();
        let mut k: usize = 0;
        while k < names.len()
            invariant
                k <= names.len(),
                vec.len() == k,
                forall|m: int|
                    0 <= m < k ==> #[trigger] vec[m]@ == spec_texture_path(
                        names[m]@,
                        normal_suffix@,
                        specular_suffix@,
                        string_views(present@),
                    ),
            decreases names.len() - k,
        {
            let name = names[k];
            let path = PbrTexturePath {
                albedo: albedo_file_name(name),
                normal: keep_if_present(suffixed_file_name(name, normal_suffix), present),
                specular: keep_if_present(suffixed_file_name(name, specular_suffix), present),
            };
            vec.push(path);
            k = k + 1;
        }
        PbrTexturePaths { base: String::from_str(base), vec }
    }
}

/// A companion map is kept exactly when its file name occurs somewhere in the
/// list of present files, and it is kept under that name.
pub proof fn lemma_kept_exactly_when_listed(file: Seq<char>, present: Seq<String>)
    ensures
        if_present(file, string_views(present)) is Some <==> exists|k: int|
            0 <= k < present.len() && (#[trigger] present[k])@ == file,
        if_present(file, string_views(present)) matches Some(f) ==> f == file,
{
    let views = string_views(present);
    if exists|k: int| 0 <= k < present.len() && (#[trigger] present[k])@ == file {
        let k = choose|k: int| 0 <= k < present.len() && (#[trigger] present[k])@ == file;
        assert(views[k] == file);
    }
    if views.contains(file) {
        let k = choose|k: int| 0 <= k < views.len() && views[k] == file;
        assert(present[k]@ == file);
    }
}

/// The albedo file is the material name followed by `.png`; a companion file
/// is the name, an underscore, the suffix and `.png`.
pub proof fn lemma_file_name_layout(name: Seq<char>, suffix: Seq<char>)
    ensures
        ({
            let f = spec_albedo_file_name(name);
            let n = name.len() as int;
            &&& f.len() == n + 4
            &&& f.subrange(0, n) == name
            &&& f.subrange(n, n + 4) == seq!['.', 'p', 'n', 'g']
        }),
        ({
            let f = spec_suffixed_file_name(name, suffix);
            let n = name.len() as int;
            let s = suffix.len() as int;
            &&& f.len() == n + s + 5
            &&& f.subrange(0, n) == name
            &&& f[n] == '_'
            &&& f.subrange(n + 1, n + 1 + s) == suffix
            &&& f.subrange(n + 1 + s, n + s + 5) == seq!['.', 'p', 'n', 'g']
        }),
{
    reveal_strlit(".png");
    reveal_strlit("_");
    let n = name.len() as int;
    let s = suffix.len() as int;
    let a = spec_albedo_file_name(name);
    assert(a.subrange(0, n) =~= name);
    assert(a.subrange(n, n + 4) =~= seq!['.', 'p', 'n', 'g']);
    let f = spec_suffixed_file_name(name, suffix);
    assert(f.subrange(0, n) =~= name);
    assert(f.subrange(n + 1, n + 1 + s) =~= suffix);
    assert(f.subrange(n + 1 + s, n + s + 5) =~= seq!['.', 'p', 'n', 'g']);
}

} // verus!
