use vstd::prelude::*;
use crate::json::{
    json_bool,
    json_entries,
    json_is_null,
    json_object,
    json_parse,
    json_str,
    object_entries,
    parse_value,
    value_as_bool,
    value_as_object,
    value_as_str,
    value_is_null,
};
use crate::path::{append_resolving, appended};

verus! {

/// What a package puts in the place of one of its paths in a browser.
#[derive(Debug, Clone, PartialEq, Eq)]
pub enum BrowserSubstitution<T> {
    /// The path is left out: what asks for it gets an empty module.
    Ignore,
    /// The path is replaced by another path or module name.
    Replace(T),
}

/// The substitutions of a package, each a key and what replaces it, in the
/// order of the manifest's object.
#[derive(Debug, Clone, PartialEq, Eq)]
pub struct BrowserSubstitutionMap(pub Vec<(String, BrowserSubstitution<String>)>);

/// What a manifest says of its package.
#[derive(Debug, Clone, PartialEq, Eq)]
pub struct PackageInfo {
    pub main: String,
    pub browser_substitutions: BrowserSubstitutionMap,
}

/// Why a manifest is refused.
#[derive(Debug, Clone, Copy, PartialEq, Eq, Structural)]
pub enum ManifestFault {
    /// The text is not JSON.
    Syntax,
    /// The manifest is not an object.
    NotAnObject,
    /// `main` is neither a string nor `null`.
    Main,
    /// `browser` is neither a string, an object nor `null`.
    Browser,
    /// A value under `browser` is neither a string nor `false`.
    Substitution,
}

/// Substitutions as plain values: each a key and what replaces it.
pub type Substitutions = Seq<(Seq<char>, BrowserSubstitution<Seq<char>>)>;

/// A package's manifest as plain values.
pub struct PackageInfoView {
    pub main: Seq<char>,
    pub substitutions: Substitutions,
}

/// A substitution as a plain value.
pub open spec fn substitution_view(s: BrowserSubstitution<String>) -> BrowserSubstitution<
    Seq<char>,
> {
    match s {
        BrowserSubstitution::Ignore => BrowserSubstitution::Ignore,
        BrowserSubstitution::Replace(t) => BrowserSubstitution::Replace(t@),
    }
}

impl View for BrowserSubstitutionMap {
    type V = Substitutions;

    open spec fn view(&self) -> Substitutions {
        Seq::new(self.0@.len(), |i: int| (self.0@[i].0@, substitution_view(self.0@[i].1)))
    }
}

impl View for PackageInfo {
    type V = PackageInfoView;

    open spec fn view(&self) -> PackageInfoView {
        PackageInfoView { main: self.main@, substitutions: self.browser_substitutions@ }
    }
}

/// The main path of a package whose manifest names none.
pub open spec fn default_main() -> Seq<char> {
    "./index"@
}

/// The substitution that a JSON value stands for: `false` leaves the path
/// out, a string replaces it, anything else is refused.
pub open spec fn substitution_of(v: serde_json::Value) -> Result<
    BrowserSubstitution<Seq<char>>,
    ManifestFault,
> {
    if json_bool(v) == Some(false) {
        Ok(BrowserSubstitution::Ignore)
    } else {
        match json_str(v) {
            Some(s) => Ok(BrowserSubstitution::Replace(s)),
            None => Err(ManifestFault::Substitution),
        }
    }
}

/// The substitutions that the members of an object stand for, in their order;
/// refused as soon as one member is.
pub open spec fn substitutions_of_entries(es: Seq<(Seq<char>, serde_json::Value)>) -> Result<
    Substitutions,
    ManifestFault,
>
    decreases es.len(),
{
    if es.len() == 0 {
        Ok(Seq::empty())
    } else {
        match substitutions_of_entries(es.drop_last()) {
            Err(e) => Err(e),
            Ok(m) => match substitution_of(es.last().1) {
                Err(e) => Err(e),
                Ok(s) => Ok(m.push((es.last().0, s))),
            },
        }
    }
}

/// The substitutions that a JSON value stands for: it has to be an object.
pub open spec fn substitution_map_of(v: serde_json::Value) -> Result<Substitutions, ManifestFault> {
    match json_object(v) {
        None => Err(ManifestFault::Browser),
        Some(m) => substitutions_of_entries(json_entries(m)),
    }
}

/// The value of the first member called `name`.
pub open spec fn member(es: Seq<(Seq<char>, serde_json::Value)>, name: Seq<char>) -> Option<
    serde_json::Value,
>
    decreases es.len(),
{
    if es.len() == 0 {
        None
    } else if es[0].0 == name {
        Some(es[0].1)
    } else {
        member(es.drop_first(), name)
    }
}

/// The main path that the members of a manifest name.
pub open spec fn main_of(es: Seq<(Seq<char>, serde_json::Value)>) -> Result<
    Seq<char>,
    ManifestFault,
> {
    match member(es, "main"@) {
        None => Ok(default_main()),
        Some(v) => if json_is_null(v) {
            Ok(default_main())
        } else {
            match json_str(v) {
                Some(s) => Ok(s),
                None => Err(ManifestFault::Main),
            }
        },
    }
}

/// The substitutions that the members of a manifest name, for a package of
/// the given main path: a string under `browser` replaces the main path.
pub open spec fn browser_of(es: Seq<(Seq<char>, serde_json::Value)>, main: Seq<char>) -> Result<
    Substitutions,
    ManifestFault,
> {
    match member(es, "browser"@) {
        None => Ok(Seq::empty()),
        Some(v) => if json_is_null(v) {
            Ok(Seq::empty())
        } else {
            match json_str(v) {
                Some(s) => Ok(seq![(main, BrowserSubstitution::Replace(appended("."@, s)))]),
                None => substitution_map_of(v),
            }
        },
    }
}

/// What a JSON value says as a manifest.
pub open spec fn package_info_of(v: serde_json::Value) -> Result<PackageInfoView, ManifestFault> {
    match json_object(v) {
        None => Err(ManifestFault::NotAnObject),
        Some(m) => match main_of(json_entries(m)) {
            Err(e) => Err(e),
            Ok(main) => match browser_of(json_entries(m), main) {
                Err(e) => Err(e),
                Ok(substitutions) => Ok(PackageInfoView { main, substitutions }),
            },
        },
    }
}

/// What a text says as a manifest.
pub open spec fn package_info_of_text(text: Seq<char>) -> Result<PackageInfoView, ManifestFault> {
    match json_parse(text) {
        None => Err(ManifestFault::Syntax),
        Some(v) => package_info_of(v),
    }
}

/// The value of the first member called `name`.
fn find_member<'a>(es: &'a Vec<(String, serde_json::Value)>, name: &str) -> (r: Option<
    &'a serde_json::Value,
>)
    ensures
        match r {
            Some(v) => member(entries_view(es@), name@) == Some(*v),
            None => member(entries_view(es@), name@) is None,
        },
{
    let wanted = name.to_owned();
    let mut i: usize = 0;
    assert(entries_view(es@).skip(0) =~= entries_view(es@));
    while i < es.len()
        invariant
            i <= es@.len(),
            wanted@ == name@,
            member(entries_view(es@), name@) == member(entries_view(es@).skip(i as int), name@),
        decreases es@.len() - i,
    {
        proof {
            let rest = entries_view(es@).skip(i as int);
            assert(rest[0] == entries_view(es@)[i as int]);
            assert(rest.drop_first() =~= entries_view(es@).skip(i + 1));
        }
        if es[i].0 == wanted {
            return Some(&es[i].1);
        }
        i += 1;
    }
    None
}

/// The members of an object as plain keys beside their values.
pub open spec fn entries_view(es: Seq<(String, serde_json::Value)>) -> Seq<
    (Seq<char>, serde_json::Value),
> {
    Seq::new(es.len(), |i: int| (es[i].0@, es[i].1))
}

/// The members of the object `m`.
fn entries_of(m: &serde_json::Map<String, serde_json::Value>) -> (es: Vec<
    (String, serde_json::Value),
>)
    ensures
        entries_view(es@) == json_entries(*m),
{
    let es = object_entries(m);
    assert(entries_view(es@) =~= json_entries(*m));
    es
}

impl BrowserSubstitution<String> {
    /// The substitution that a JSON value stands for.
    pub fn from_value(v: &serde_json::Value) -> (r: Result<
        BrowserSubstitution<String>,
        ManifestFault,
    >)
        ensures
            match r {
                Ok(s) => substitution_of(*v) == Ok::<_, ManifestFault>(substitution_view(s)),
                Err(e) => substitution_of(*v) == Err::<BrowserSubstitution<Seq<char>>, _>(e),
            },
    {
        match value_as_bool(v) {
            Some(false) => Ok(BrowserSubstitution::Ignore),
            _ => match value_as_str(v) {
                Some(s) => Ok(BrowserSubstitution::Replace(s.to_owned())),
                None => Err(ManifestFault::Substitution),
            },
        }
    }

    /// The substitution that a JSON text stands for.
    pub fn parse(text: &str) -> (r: Result<BrowserSubstitution<String>, ManifestFault>)
        ensures
            match r {
                Ok(s) => json_parse(text@) is Some && substitution_of(json_parse(text@)->0) == Ok::<
                    _,
                    ManifestFault,
                >(substitution_view(s)),
                Err(e) => match json_parse(text@) {
                    None => e == ManifestFault::Syntax,
                    Some(v) => substitution_of(v) == Err::<BrowserSubstitution<Seq<char>>, _>(e),
                },
            },
    {
        match parse_value(text) {
            Err(_) => Err(ManifestFault::Syntax),
            Ok(v) => BrowserSubstitution::from_value(&v),
        }
    }
}

impl BrowserSubstitutionMap {
    /// No substitutions.
    pub fn new() -> (r: BrowserSubstitutionMap)
        ensures
            r@ == Substitutions::empty(),
    {
        let r = BrowserSubstitutionMap(Vec::new());
        assert(r@ =~= Substitutions::empty());
        r
    }

    /// The substitutions that a JSON value stands for.
    pub fn from_value(v: &serde_json::Value) -> (r: Result<BrowserSubstitutionMap, ManifestFault>)
        ensures
            match r {
                Ok(m) => substitution_map_of(*v) == Ok::<_, ManifestFault>(m@),
                Err(e) => substitution_map_of(*v) == Err::<Substitutions, _>(e),
            },
    {
        match value_as_object(v) {
            None => Err(ManifestFault::Browser),
            Some(m) => {
                let es = entries_of(m);
                let mut out: Vec<(String, BrowserSubstitution<String>)> = Vec::new();
                let mut i: usize = 0;
                assert(entries_view(es@).take(0) =~= Seq::empty());
                assert(BrowserSubstitutionMap(out)@ =~= Seq::empty());
                while i < es.len()
                    invariant
                        i <= es@.len(),
                        entries_view(es@) == json_entries(*m),
                        json_object(*v) == Some(*m),
                        substitutions_of_entries(entries_view(es@).take(i as int)) == Ok::<
                            _,
                            ManifestFault,
                        >(BrowserSubstitutionMap(out)@),
                    decreases es@.len() - i,
                {
                    proof {
                        let all = entries_view(es@);
                        assert(all.take(i + 1).drop_last() =~= all.take(i as int));
                        assert(all.take(i + 1).last() == all[i as int]);
                    }
                    let ghost before = BrowserSubstitutionMap(out)@;
                    match BrowserSubstitution::from_value(&es[i].1) {
                        Err(e) => {
                            proof {
                                substitutions_fail_on(entries_view(es@), i + 1);
                            }
                            return Err(e);
                        },
                        Ok(s) => {
                            out.push((es[i].0.clone(), s));
                            assert(BrowserSubstitutionMap(out)@ =~= before.push(
                                (es@[i as int].0@, substitution_view(s)),
                            ));
                        },
                    }
                    i += 1;
                }
                assert(entries_view(es@).take(es@.len() as int) =~= entries_view(es@));
                Ok(BrowserSubstitutionMap(out))
            },
        }
    }

    /// The substitutions that a JSON text stands for.
    pub fn parse(text: &str) -> (r: Result<BrowserSubstitutionMap, ManifestFault>)
        ensures
            match r {
                Ok(m) => json_parse(text@) is Some && substitution_map_of(json_parse(text@)->0)
                    == Ok::<_, ManifestFault>(m@),
                Err(e) => match json_parse(text@) {
                    None => e == ManifestFault::Syntax,
                    Some(v) => substitution_map_of(v) == Err::<Substitutions, _>(e),
                },
            },
    {
        match parse_value(text) {
            Err(_) => Err(ManifestFault::Syntax),
            Ok(v) => BrowserSubstitutionMap::from_value(&v),
        }
    }
}

/// Members that are refused up to some point are refused as a whole, for the
/// same reason.
pub proof fn substitutions_fail_on(es: Seq<(Seq<char>, serde_json::Value)>, n: int)
    requires
        0 <= n <= es.len(),
        substitutions_of_entries(es.take(n)) is Err,
    ensures
        substitutions_of_entries(es) == substitutions_of_entries(es.take(n)),
    decreases es.len() - n,
{
    if n == es.len() {
        assert(es.take(n) =~= es);
    } else {
        assert(es.take(n + 1).drop_last() =~= es.take(n));
        substitutions_fail_on(es, n + 1);
    }
}

impl PackageInfo {
    /// What a JSON value says as a manifest.
    pub fn from_value(v: &serde_json::Value) -> (r: Result<PackageInfo, ManifestFault>)
        ensures
            match r {
                Ok(info) => package_info_of(*v) == Ok::<_, ManifestFault>(info@),
                Err(e) => package_info_of(*v) == Err::<PackageInfoView, _>(e),
            },
    {
        let m = match value_as_object(v) {
            None => {
                return Err(ManifestFault::NotAnObject);
            },
            Some(m) => m,
        };
        let es = entries_of(m);
        let main: String = match find_member(&es, "main") {
            None => "./index".to_owned(),
            Some(x) => if value_is_null(x) {
                "./index".to_owned()
            } else {
                match value_as_str(x) {
                    Some(s) => s.to_owned(),
                    None => {
                        return Err(ManifestFault::Main);
                    },
                }
            },
        };
        assert(main_of(json_entries(*m)) == Ok::<_, ManifestFault>(main@));
        let browser_substitutions = match find_member(&es, "browser") {
            None => BrowserSubstitutionMap::new(),
            Some(b) => if value_is_null(b) {
                BrowserSubstitutionMap::new()
            } else {
                match value_as_str(b) {
                    Some(s) => {
                        let mut target = ".".to_owned();
                        append_resolving(&mut target, s);
                        let mut one: Vec<(String, BrowserSubstitution<String>)> = Vec::new();
                        one.push((main.clone(), BrowserSubstitution::Replace(target)));
                        let map = BrowserSubstitutionMap(one);
                        assert(map@ =~= seq![
                            (main@, BrowserSubstitution::Replace(appended("."@, s@))),
                        ]);
                        map
                    },
                    None => match BrowserSubstitutionMap::from_value(b) {
                        Err(e) => {
                            return Err(e);
                        },
                        Ok(map) => map,
                    },
                }
            },
        };
        Ok(PackageInfo { main, browser_substitutions })
    }

    /// What a JSON text says as a manifest.
    pub fn parse(text: &str) -> (r: Result<PackageInfo, ManifestFault>)
        ensures
            match r {
                Ok(info) => package_info_of_text(text@) == Ok::<_, ManifestFault>(info@),
                Err(e) => package_info_of_text(text@) == Err::<PackageInfoView, _>(e),
            },
    {
        match parse_value(text) {
            Err(_) => Err(ManifestFault::Syntax),
            Ok(v) => PackageInfo::from_value(&v),
        }
    }
}

} // verus!
