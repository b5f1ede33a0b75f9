use vstd::prelude::*;
use crate::dispatch::HostOs;
use crate::text::str_eq;

verus! {

/// The type of the package we're bundling.
#[derive(Clone, Copy, Debug, PartialEq, Eq, Structural)]
#[non_exhaustive]
pub enum PackageType {
    /// The macOS application bundle (.app).
    MacOsBundle,
    /// The iOS app bundle.
    IosBundle,
    /// The Linux AppImage bundle (.AppImage).
    AppImage,
    /// The macOS DMG bundle (.dmg).
    Dmg,
    /// The Updater bundle.
    Updater,
}

/// The short name of a package type.
pub open spec fn short_name_of(t: PackageType) -> Seq<char> {
    match t {
        PackageType::IosBundle => "ios"@,
        PackageType::MacOsBundle => "app"@,
        PackageType::AppImage => "appimage"@,
        PackageType::Dmg => "dmg"@,
        PackageType::Updater => "updater"@,
    }
}

/// The package type whose short name is `name`, if any.
pub open spec fn from_short_name_spec(name: Seq<char>) -> Option<PackageType> {
    if name == "ios"@ {
        Some(PackageType::IosBundle)
    } else if name == "app"@ {
        Some(PackageType::MacOsBundle)
    } else if name == "appimage"@ {
        Some(PackageType::AppImage)
    } else if name == "dmg"@ {
        Some(PackageType::Dmg)
    } else if name == "updater"@ {
        Some(PackageType::Updater)
    } else {
        None
    }
}

/// The package types that can be built on a host.
pub open spec fn all_types_of(host: HostOs) -> Seq<PackageType> {
    match host {
        HostOs::MacOs => seq![
            PackageType::IosBundle,
            PackageType::MacOsBundle,
            PackageType::Dmg,
            PackageType::Updater,
        ],
        HostOs::Linux => seq![PackageType::AppImage, PackageType::Updater],
        _ => seq![PackageType::Updater],
    }
}

/// The build priority of a package type: lower values are built first.
pub open spec fn priority_of(t: PackageType) -> u32 {
    match t {
        PackageType::MacOsBundle => 0,
        PackageType::IosBundle => 0,
        PackageType::AppImage => 0,
        PackageType::Dmg => 1,
        PackageType::Updater => 2,
    }
}

/// The package types of `types` that have priority `p`, in their order.
pub open spec fn with_priority(types: Seq<PackageType>, p: u32) -> Seq<PackageType> {
    types.filter(|t: PackageType| priority_of(t) == p)
}

/// The build order of `types`: every type of priority 0, then 1, then 2,
/// each group in the order of the request.
pub open spec fn build_order_of(types: Seq<PackageType>) -> Seq<PackageType> {
    with_priority(types, 0) + with_priority(types, 1) + with_priority(types, 2)
}

impl PackageType {
    /// Maps a short name to a PackageType.
    /// Possible values are "ios", "app", "appimage", "dmg", "updater".
    pub fn from_short_name(name: &str) -> (r: Option<PackageType>)
        ensures
            r == from_short_name_spec(name@),
    {
        if str_eq(name, "ios") {
            Some(PackageType::IosBundle)
        } else if str_eq(name, "app") {
            Some(PackageType::MacOsBundle)
        } else if str_eq(name, "appimage") {
            Some(PackageType::AppImage)
        } else if str_eq(name, "dmg") {
            Some(PackageType::Dmg)
        } else if str_eq(name, "updater") {
            Some(PackageType::Updater)
        } else {
            None
        }
    }

    /// Gets the short name of this PackageType.
    pub fn short_name(&self) -> (r: &'static str)
        ensures
            r@ == short_name_of(*self),
    {
        match *self {
            PackageType::IosBundle => "ios",
            PackageType::MacOsBundle => "app",
            PackageType::AppImage => "appimage",
            PackageType::Dmg => "dmg",
            PackageType::Updater => "updater",
        }
    }

    /// Gets the list of the package types that can be built on `host`:
    /// the Apple formats on macOS, AppImage on Linux, and Updater everywhere.
    pub fn all(host: HostOs) -> (r: Vec<PackageType>)
        ensures
            r@ == all_types_of(host),
    {
        match host {
            HostOs::MacOs => vec![
                PackageType::IosBundle,
                PackageType::MacOsBundle,
                PackageType::Dmg,
                PackageType::Updater,
            ],
            HostOs::Linux => vec![PackageType::AppImage, PackageType::Updater],
            _ => vec![PackageType::Updater],
        }
    }

    /// Gets a number representing priority which used to sort package types
    /// in an order that guarantees that if a certain package type
    /// depends on another (like Dmg depending on MacOsBundle), the dependency
    /// will be built first.
    ///
    /// The lower the number, the higher the priority.
    pub fn priority(&self) -> (r: u32)
        ensures
            r == priority_of(*self),
    {
        match self {
            PackageType::MacOsBundle => 0,
            PackageType::IosBundle => 0,
            PackageType::AppImage => 0,
            PackageType::Dmg => 1,
            PackageType::Updater => 2,
        }
    }
}

/// Appends to `out` the types of `types` whose priority is `p`, in order.
fn push_with_priority(types: &Vec<PackageType>, p: u32, out: &mut Vec<PackageType>)
    ensures
        final(out)@ == old(out)@ + with_priority(types@, p),
{
    let mut i: usize = 0;
    while i < types.len()
        invariant
            i <= types@.len(),
            out@ == old(out)@ + with_priority(types@.subrange(0, i as int), p),
        decreases types@.len() - i,
    {
        let t = types[i];
        proof {
            let s = types@.subrange(0, i as int);
            let s1 = types@.subrange(0, i + 1);
            assert(s1.drop_last() =~= s);
            assert(s1.last() == t);
            assert(with_priority(s1, p) =~= s1.drop_last().filter(|t: PackageType| priority_of(t) == p)
                + if priority_of(t) == p { seq![t] } else { Seq::empty() }) by {
                reveal(Seq::filter);
            }
        }
        if t.priority() == p {
            out.push(t);
        }
        i = i + 1;
    }
    assert(types@.subrange(0, types@.len() as int) =~= types@);
}

/// Orders the requested package types for building: ascending priority,
/// keeping the request's order among types of equal priority.
pub fn build_order(types: &Vec<PackageType>) -> (r: Vec<PackageType>)
    ensures
        r@ == build_order_of(types@),
{
    let mut out: Vec<PackageType> = Vec::new();
    push_with_priority(types, 0, &mut out);
    push_with_priority(types, 1, &mut out);
    push_with_priority(types, 2, &mut out);
    assert(out@ =~= build_order_of(types@));
    out
}

/// Parsing the short name of any package type gives that type back.
pub proof fn lemma_short_name_round_trip(t: PackageType)
    ensures
        from_short_name_spec(short_name_of(t)) == Some(t),
{
    reveal_strlit("ios");
    reveal_strlit("app");
    reveal_strlit("appimage");
    reveal_strlit("dmg");
    reveal_strlit("updater");
    assert("ios"@[0] != "app"@[0]);
    assert("appimage"@.len() != "app"@.len() && "appimage"@[0] != "ios"@[0]);
    assert("dmg"@[0] != "appimage"@[0] && "updater"@[0] != "appimage"@[0]);
    assert("dmg"@[0] != "app"@[0] && "dmg"@[0] != "ios"@[0]);
    assert("updater"@[0] != "app"@[0] && "updater"@[0] != "ios"@[0] && "updater"@[0]
        != "dmg"@[0]);
}

proof fn lemma_build_order_multiset(types: Seq<PackageType>)
    ensures
        build_order_of(types).to_multiset() =~= types.to_multiset(),
    decreases types.len(),
{
    broadcast use vstd::seq_lib::lemma_multiset_commutative, vstd::seq_lib::to_multiset_build;
    broadcast use vstd::multiset::group_multiset_axioms;

    if types.len() == 0 {
        assert(with_priority(types, 0) =~= Seq::empty()) by { reveal(Seq::filter); }
        assert(with_priority(types, 1) =~= Seq::empty()) by { reveal(Seq::filter); }
        assert(with_priority(types, 2) =~= Seq::empty()) by { reveal(Seq::filter); }
        assert(build_order_of(types) =~= Seq::empty());
        assert(types =~= Seq::empty());
    } else {
        let s = types.drop_last();
        let x = types.last();
        assert(s.push(x) =~= types);
        lemma_build_order_multiset(s);
        let pred0 = |t: PackageType| priority_of(t) == 0;
        let pred1 = |t: PackageType| priority_of(t) == 1;
        let pred2 = |t: PackageType| priority_of(t) == 2;
        s.lemma_filter_push(x, pred0);
        s.lemma_filter_push(x, pred1);
        s.lemma_filter_push(x, pred2);
        let a = with_priority(s, 0);
        let b = with_priority(s, 1);
        let c = with_priority(s, 2);
        assert(build_order_of(s).to_multiset() =~= a.to_multiset().add(b.to_multiset()).add(
            c.to_multiset(),
        ));
        if priority_of(x) == 0 {
            assert(build_order_of(types).to_multiset() =~= a.push(x).to_multiset().add(
                b.to_multiset(),
            ).add(c.to_multiset()));
        } else if priority_of(x) == 1 {
            assert(build_order_of(types).to_multiset() =~= a.to_multiset().add(
                b.push(x).to_multiset(),
            ).add(c.to_multiset()));
        } else {
            assert(build_order_of(types).to_multiset() =~= a.to_multiset().add(
                b.to_multiset(),
            ).add(c.push(x).to_multiset()));
        }
        assert(types.to_multiset() =~= s.to_multiset().insert(x));
    }
}

/// The build order holds each requested package type exactly as often as it
/// was requested, and a type of lower priority always comes before one of
/// higher priority. So MacOsBundle comes before Dmg and before Updater, and
/// AppImage before Updater, whenever they are requested together.
pub proof fn lemma_build_order_respects_dependencies(types: Seq<PackageType>)
    ensures
        build_order_of(types).to_multiset() == types.to_multiset(),
        forall|i: int, j: int|
            0 <= i < build_order_of(types).len() && 0 <= j < build_order_of(types).len()
                && priority_of(#[trigger] build_order_of(types)[i]) < priority_of(
                #[trigger] build_order_of(types)[j],
            ) ==> i < j,
        forall|i: int, j: int|
            0 <= i < build_order_of(types).len() && 0 <= j < build_order_of(types).len()
                && #[trigger] build_order_of(types)[i] == PackageType::MacOsBundle
                && (#[trigger] build_order_of(types)[j] == PackageType::Dmg
                || build_order_of(types)[j] == PackageType::Updater) ==> i < j,
        forall|i: int, j: int|
            0 <= i < build_order_of(types).len() && 0 <= j < build_order_of(types).len()
                && #[trigger] build_order_of(types)[i] == PackageType::AppImage
                && #[trigger] build_order_of(types)[j] == PackageType::Updater ==> i < j,
{
    lemma_build_order_multiset(types);
    let r = build_order_of(types);
    let a = with_priority(types, 0);
    let b = with_priority(types, 1);
    let c = with_priority(types, 2);
    broadcast use vstd::seq_lib::group_filter_ensures;

    assert forall|k: int| 0 <= k < r.len() implies (k < a.len() ==> priority_of(r[k]) == 0) && (
    a.len() <= k < a.len() + b.len() ==> priority_of(r[k]) == 1) && (a.len() + b.len() <= k
        ==> priority_of(r[k]) == 2) by {
        if k < a.len() {
            assert(r[k] == a[k]);
        } else if k < a.len() + b.len() {
            assert(r[k] == b[k - a.len()]);
        } else {
            assert(r[k] == c[k - a.len() - b.len()]);
        }
    }
}

} // verus!
