use vstd::prelude::*;

verus! {

/// The weights in which the Roboto family is bundled.
#[derive(Clone, Copy, Debug, PartialEq, Eq, Structural)]
pub enum FontWeight {
    Thin,
    Light,
    Regular,
    Medium,
    Bold,
    Black,
}

/// One bundled Roboto font file: a weight, upright or italic.
#[derive(Clone, Copy, Debug, PartialEq, Eq, Structural)]
pub struct RobotoFace {
    pub weight: FontWeight,
    pub italic: bool,
}

/// One font registered with a launch configuration: the family name it is
/// registered under and the bundled file.
#[derive(Clone, Copy, Debug)]
pub struct FontRegistration {
    pub family: &'static str,
    pub face: RobotoFace,
}

/// The fonts that a launch configuration registers, in the order of
/// registration.
pub struct LaunchFonts {
    entries: Vec<FontRegistration>,
}

/// The family name under which the Roboto files are registered.
pub const ROBOTO_FAMILY: &'static str = "Roboto";

/// The characters of `ROBOTO_FAMILY`.
pub open spec fn roboto_family() -> Seq<char> {
    seq!['R', 'o', 'b', 'o', 't', 'o']
}

pub open spec fn face(weight: FontWeight, italic: bool) -> RobotoFace {
    RobotoFace { weight, italic }
}

/// The bundled Roboto files in order of registration: each weight from thin to
/// black, upright before italic.
pub open spec fn roboto_faces() -> Seq<RobotoFace> {
    seq![
        face(FontWeight::Thin, false), face(FontWeight::Thin, true),
        face(FontWeight::Light, false), face(FontWeight::Light, true),
        face(FontWeight::Regular, false), face(FontWeight::Regular, true),
        face(FontWeight::Medium, false), face(FontWeight::Medium, true),
        face(FontWeight::Bold, false), face(FontWeight::Bold, true),
        face(FontWeight::Black, false), face(FontWeight::Black, true),
    ]
}

/// What `with_roboto` registers: every bundled file under the Roboto family.
pub open spec fn roboto_registrations() -> Seq<(Seq<char>, RobotoFace)> {
    roboto_faces().map_values(|f: RobotoFace| (roboto_family(), f))
}

impl View for LaunchFonts {
    type V = Seq<(Seq<char>, RobotoFace)>;

    closed spec fn view(&self) -> Seq<(Seq<char>, RobotoFace)> {
        self.entries@.map_values(|e: FontRegistration| (e.family@, e.face))
    }
}

impl LaunchFonts {
    /// A configuration with no font registered.
    pub fn new() -> (r: LaunchFonts)
        ensures
            r@ == Seq::<(Seq<char>, RobotoFace)>::empty(),
    {
        let r = LaunchFonts { entries: Vec::new() };
        assert(r@ =~= Seq::<(Seq<char>, RobotoFace)>::empty());
        r
    }

    /// Registers one more font under `family`.
    pub fn with_font(self, family: &'static str, face: RobotoFace) -> (r: LaunchFonts)
        ensures
            r@ == self@.push((family@, face)),
    {
        let mut entries = self.entries;
        entries.push(FontRegistration { family, face });
        let r = LaunchFonts { entries };
        assert(r@ =~= self@.push((family@, face)));
        r
    }

    /// The number of registered fonts.
    pub fn len(&self) -> (r: usize)
        ensures
            r == self@.len(),
    {
        self.entries.len()
    }

    /// The registration at position `i`.
    pub fn get(&self, i: usize) -> (r: &FontRegistration)
        requires
            i < self@.len(),
        ensures
            (r.family@, r.face) == self@[i as int],
    {
        &self.entries[i]
    }
}

/// Registration of the bundled Roboto family with a launch configuration.
pub trait LaunchConfigExt: Sized {
    /// Registers every bundled Roboto file under the family name `Roboto`.
    fn with_roboto(self) -> Self;
}

impl LaunchConfigExt for LaunchFonts {
    fn with_roboto(self) -> (r: LaunchFonts)
        ensures
            r@ == self@ + roboto_registrations(),
    {
        proof {
            reveal_strlit("Roboto");
        }
        let family = ROBOTO_FAMILY;
        let r = self.with_font(family, RobotoFace { weight: FontWeight::Thin, italic: false })
            .with_font(family, RobotoFace { weight: FontWeight::Thin, italic: true })
            .with_font(family, RobotoFace { weight: FontWeight::Light, italic: false })
            .with_font(family, RobotoFace { weight: FontWeight::Light, italic: true })
            .with_font(family, RobotoFace { weight: FontWeight::Regular, italic: false })
            .with_font(family, RobotoFace { weight: FontWeight::Regular, italic: true })
            .with_font(family, RobotoFace { weight: FontWeight::Medium, italic: false })
            .with_font(family, RobotoFace { weight: FontWeight::Medium, italic: true })
            .with_font(family, RobotoFace { weight: FontWeight::Bold, italic: false })
            .with_font(family, RobotoFace { weight: FontWeight::Bold, italic: true })
            .with_font(family, RobotoFace { weight: FontWeight::Black, italic: false })
            .with_font(family, RobotoFace { weight: FontWeight::Black, italic: true });
        assert(family@ == roboto_family());
        assert(r@ =~= self@ + roboto_registrations());
        r
    }
}

/// Applying the Roboto extension adds twelve registrations, all under the
/// family name `Roboto` and no two for the same file.
pub proof fn lemma_roboto_registrations(before: Seq<(Seq<char>, RobotoFace)>, after: Seq<(Seq<char>, RobotoFace)>)
    requires
        after == before + roboto_registrations(),
    ensures
        after.len() == before.len() + 12,
        forall|i: int| before.len() <= i < after.len() ==> #[trigger] after[i].0 == roboto_family(),
        forall|i: int, j: int|
            before.len() <= i < j < after.len() ==> #[trigger] after[i].1 != #[trigger] after[j].1,
{
    let regs = roboto_registrations();
    assert(regs.len() == 12);
    assert forall|i: int| before.len() <= i < after.len() implies #[trigger] after[i].0 == roboto_family() by {
        assert(after[i] == regs[i - before.len()]);
    }
    assert forall|i: int, j: int|
        before.len() <= i < j < after.len() implies #[trigger] after[i].1 != #[trigger] after[j].1 by {
        assert(after[i] == regs[i - before.len()]);
        assert(after[j] == regs[j - before.len()]);
        assert(regs[i - before.len()].1 == roboto_faces()[i - before.len()]);
        assert(regs[j - before.len()].1 == roboto_faces()[j - before.len()]);
    }
}

} // verus!
