use vstd::prelude::*;

verus! {

/// One package as the registry describes it.
#[derive(Clone, Debug)]
pub struct Crate {
    pub name: String,
    pub description: Option<String>,
    pub downloads: u64,
    pub created_at: String,
    pub updated_at: String,
    pub documentation: Option<String>,
    pub repository: Option<String>,
    pub max_version: String,
    pub license: Option<String>,
    pub keywords: Option<Vec<String>>,
    pub categories: Option<Vec<String>>,
}

/// One source repository as the hosting service describes it.
#[derive(Clone, Debug)]
pub struct Repository {
    pub name: String,
    pub full_name: String,
    pub html_url: String,
    pub description: Option<String>,
    pub stargazers_count: u64,
    pub forks_count: u64,
    pub language: Option<String>,
}

/// What a package record says, as mathematical values.
pub struct CrateModel {
    pub name: Seq<char>,
    pub description: Option<Seq<char>>,
    pub downloads: u64,
    pub created_at: Seq<char>,
    pub updated_at: Seq<char>,
    pub documentation: Option<Seq<char>>,
    pub repository: Option<Seq<char>>,
    pub max_version: Seq<char>,
    pub license: Option<Seq<char>>,
    pub keywords: Option<Seq<Seq<char>>>,
    pub categories: Option<Seq<Seq<char>>>,
}

/// The characters of an optional text.
pub open spec fn opt_chars(o: Option<String>) -> Option<Seq<char>> {
    match o {
        Some(s) => Some(s@),
        None => None,
    }
}

/// The texts of an optional list.
pub open spec fn opt_texts(o: Option<Vec<String>>) -> Option<Seq<Seq<char>>> {
    match o {
        Some(v) => Some(v.deep_view()),
        None => None,
    }
}

impl View for Crate {
    type V = CrateModel;

    open spec fn view(&self) -> CrateModel {
        CrateModel {
            name: self.name@,
            description: opt_chars(self.description),
            downloads: self.downloads,
            created_at: self.created_at@,
            updated_at: self.updated_at@,
            documentation: opt_chars(self.documentation),
            repository: opt_chars(self.repository),
            max_version: self.max_version@,
            license: opt_chars(self.license),
            keywords: opt_texts(self.keywords),
            categories: opt_texts(self.categories),
        }
    }
}

/// A copy of an optional text.
fn copy_text(o: &Option<String>) -> (r: Option<String>)
    ensures
        opt_chars(r) == opt_chars(*o),
{
    match o {
        Some(s) => Some(s.clone()),
        None => None,
    }
}

/// A copy of an optional list of texts.
fn copy_texts(o: &Option<Vec<String>>) -> (r: Option<Vec<String>>)
    ensures
        opt_texts(r) == opt_texts(*o),
{
    match o {
        Some(v) => {
            let mut c: Vec<String> = Vec::new();
            for i in 0..v.len()
                invariant
                    c.len() == i,
                    forall|k: int| 0 <= k < i ==> (#[trigger] c@[k])@ == v@[k]@,
            {
                c.push(v[i].clone());
            }
            assert(c.deep_view() =~= v.deep_view());
            Some(c)
        },
        None => None,
    }
}

impl Crate {
    /// A copy of this record that says the same in every field.
    pub fn snapshot(&self) -> (r: Crate)
        ensures
            r@ == self@,
    {
        Crate {
            name: self.name.clone(),
            description: copy_text(&self.description),
            downloads: self.downloads,
            created_at: self.created_at.clone(),
            updated_at: self.updated_at.clone(),
            documentation: copy_text(&self.documentation),
            repository: copy_text(&self.repository),
            max_version: self.max_version.clone(),
            license: copy_text(&self.license),
            keywords: copy_texts(&self.keywords),
            categories: copy_texts(&self.categories),
        }
    }
}

} // verus!
