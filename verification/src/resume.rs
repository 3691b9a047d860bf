//! The resume record and its projection onto a document tree.

use vstd::prelude::*;
use crate::{Color, HorizontalAlignment, VerticalAlignment};
use crate::html::{
    all_bars_in_range, all_supported, bars_in_range, supported, views, Node, HTML,
};
use crate::text::{decimal, escape, escaped, push_decimal};

verus! {

/// How well a skill is mastered, from `Nothing` up to `Expert`.
#[derive(Clone, Copy, Debug, PartialEq, Eq, PartialOrd, Ord)]
pub enum Proficiency {
    /// Shown as "None".
    Nothing,
    Barely,
    /// Shown as "Some".
    Somewhat,
    Strong,
    Expert,
}

impl Proficiency {
    /// The place of this level in the order of levels, from 0 to 4.
    pub open spec fn ordinal(self) -> nat {
        match self {
            Proficiency::Nothing => 0,
            Proficiency::Barely => 1,
            Proficiency::Somewhat => 2,
            Proficiency::Strong => 3,
            Proficiency::Expert => 4,
        }
    }

    /// The share of the highest level that this level reaches, in per
    /// cent, rounded down.
    pub open spec fn spec_percent(self) -> nat {
        self.ordinal() * 100 / Proficiency::Expert.ordinal()
    }

    /// The name under which this level is shown.
    pub open spec fn name(self) -> Seq<char> {
        match self {
            Proficiency::Nothing => "None"@,
            Proficiency::Barely => "Barely"@,
            Proficiency::Somewhat => "Some"@,
            Proficiency::Strong => "Strong"@,
            Proficiency::Expert => "Expert"@,
        }
    }

    /// All levels, lowest first.
    pub fn all() -> (levels: [Self; 5])
        ensures
            levels@ == seq![
                Proficiency::Nothing,
                Proficiency::Barely,
                Proficiency::Somewhat,
                Proficiency::Strong,
                Proficiency::Expert,
            ],
    {
        let levels = [
            Proficiency::Nothing,
            Proficiency::Barely,
            Proficiency::Somewhat,
            Proficiency::Strong,
            Proficiency::Expert,
        ];
        assert(levels@ =~= seq![
            Proficiency::Nothing,
            Proficiency::Barely,
            Proficiency::Somewhat,
            Proficiency::Strong,
            Proficiency::Expert,
        ]);
        levels
    }

    /// The share of the highest level that this level reaches, in per
    /// cent, rounded down.
    pub fn percent(self) -> (p: u32)
        ensures
            p == self.ordinal() * 100 / 4,
            p == self.spec_percent(),
            p <= 100,
    {
        u32::from(self) * 100 / u32::from(Proficiency::Expert)
    }

    /// The name under which this level is shown.
    pub fn to_string(&self) -> (s: String)
        ensures
            s@ == self.name(),
    {
        String::from_str(
            match self {
                Proficiency::Nothing => "None",
                Proficiency::Barely => "Barely",
                Proficiency::Somewhat => "Some",
                Proficiency::Strong => "Strong",
                Proficiency::Expert => "Expert",
            },
        )
    }
}

impl From<Proficiency> for u32 {
    fn from(level: Proficiency) -> (n: u32) {
        match level {
            Proficiency::Nothing => 0,
            Proficiency::Barely => 1,
            Proficiency::Somewhat => 2,
            Proficiency::Strong => 3,
            Proficiency::Expert => 4,
        }
    }
}

impl vstd::std_specs::convert::FromSpecImpl<Proficiency> for u32 {
    open spec fn obeys_from_spec() -> bool {
        true
    }

    open spec fn from_spec(level: Proficiency) -> u32 {
        level.ordinal() as u32
    }
}

/// The bar of each level: a quarter of the full bar per step.
pub proof fn lemma_percent_table()
    ensures
        Proficiency::Nothing.spec_percent() == 0,
        Proficiency::Barely.spec_percent() == 25,
        Proficiency::Somewhat.spec_percent() == 50,
        Proficiency::Strong.spec_percent() == 75,
        Proficiency::Expert.spec_percent() == 100,
        forall|level: Proficiency| level.spec_percent() == level.ordinal() * 100 / 4,
{
}

/// A position held.
#[derive(Debug, PartialEq, Eq, PartialOrd, Ord)]
pub struct Work {
    pub start_year: u32,
    pub end_year: u32,
    pub position: String,
    pub company: String,
    pub description: String,
}

/// A position held, as a mathematical value.
pub struct WorkView {
    pub start_year: u32,
    pub end_year: u32,
    pub position: Seq<char>,
    pub company: Seq<char>,
    pub description: Seq<char>,
}

impl View for Work {
    type V = WorkView;

    open spec fn view(&self) -> WorkView {
        WorkView {
            start_year: self.start_year,
            end_year: self.end_year,
            position: self.position@,
            company: self.company@,
            description: self.description@,
        }
    }
}

/// What a course of education ended with.
#[derive(Debug, PartialEq, Eq, PartialOrd, Ord)]
pub enum Degree {
    Associates,
    Bachelors,
    Masters,
    PhD,
    HighSchoolDiploma,
    /// A degree by its own name.
    Other(String),
    /// No degree.
    NoDegree,
}

/// What a course of education ended with, as a mathematical value.
pub enum DegreeView {
    Associates,
    Bachelors,
    Masters,
    PhD,
    HighSchoolDiploma,
    Other(Seq<char>),
    NoDegree,
}

impl View for Degree {
    type V = DegreeView;

    open spec fn view(&self) -> DegreeView {
        match self {
            Degree::Associates => DegreeView::Associates,
            Degree::Bachelors => DegreeView::Bachelors,
            Degree::Masters => DegreeView::Masters,
            Degree::PhD => DegreeView::PhD,
            Degree::HighSchoolDiploma => DegreeView::HighSchoolDiploma,
            Degree::Other(name) => DegreeView::Other(name@),
            Degree::NoDegree => DegreeView::NoDegree,
        }
    }
}

impl DegreeView {
    /// The words for this degree within a sentence; none for no degree.
    pub open spec fn name(self) -> Seq<char> {
        match self {
            DegreeView::Associates => "Associates degree"@,
            DegreeView::Bachelors => "Bachelors degree"@,
            DegreeView::Masters => "Masters degree"@,
            DegreeView::PhD => "PhD"@,
            DegreeView::HighSchoolDiploma => "high school diploma"@,
            DegreeView::Other(name) => name,
            DegreeView::NoDegree => ""@,
        }
    }
}

impl Degree {
    /// The words for this degree within a sentence; none for no degree.
    pub fn to_string(&self) -> (s: String)
        ensures
            s@ == self@.name(),
    {
        match self {
            Degree::Associates => String::from_str("Associates degree"),
            Degree::Bachelors => String::from_str("Bachelors degree"),
            Degree::Masters => String::from_str("Masters degree"),
            Degree::PhD => String::from_str("PhD"),
            Degree::HighSchoolDiploma => String::from_str("high school diploma"),
            Degree::Other(name) => name.clone(),
            Degree::NoDegree => String::from_str(""),
        }
    }
}

/// A course of education. Nothing is asked of the order of the two years.
#[derive(Debug, PartialEq, Eq, PartialOrd, Ord)]
pub struct Education {
    pub start_year: u32,
    pub end_year: u32,
    pub school: String,
    pub field: Option<String>,
    pub degree: Degree,
}

/// A course of education, as a mathematical value.
pub struct EducationView {
    pub start_year: u32,
    pub end_year: u32,
    pub school: Seq<char>,
    pub field: Option<Seq<char>>,
    pub degree: DegreeView,
}

/// What an optional string holds, if anything.
pub open spec fn option_text(text: Option<String>) -> Option<Seq<char>> {
    match text {
        Some(t) => Some(t@),
        None => None,
    }
}

impl View for Education {
    type V = EducationView;

    open spec fn view(&self) -> EducationView {
        EducationView {
            start_year: self.start_year,
            end_year: self.end_year,
            school: self.school@,
            field: option_text(self.field),
            degree: self.degree@,
        }
    }
}

impl EducationView {
    /// The sentence for this course: what was studied, if a field is
    /// given, else that the school was attended; the school and the two
    /// years; and what was achieved, if a degree is given.
    pub open spec fn sentence(self) -> Seq<char> {
        let opening = match self.field {
            Some(field) => "Studied "@ + field + " at <b>"@,
            None => "Attended <b>"@,
        };
        let years = opening + self.school + "</b> from <i>"@ + decimal(self.start_year as nat)
            + "</i> to <i>"@ + decimal(self.end_year as nat) + "</i>"@;
        if self.degree is NoDegree {
            years
        } else {
            years + " and acheived "@ + self.degree.name()
        }
    }
}

impl Education {
    /// The sentence for this course of education.
    pub fn sentence(&self) -> (s: String)
        ensures
            s@ == self@.sentence(),
    {
        let mut s = match &self.field {
            Some(field) => {
                let mut s = String::from_str("Studied ");
                s.append(field.as_str());
                s.append(" at <b>");
                s
            },
            None => String::from_str("Attended <b>"),
        };
        s.append(self.school.as_str());
        s.append("</b> from <i>");
        push_decimal(&mut s, self.start_year);
        s.append("</i> to <i>");
        push_decimal(&mut s, self.end_year);
        s.append("</i>");
        match &self.degree {
            Degree::NoDegree => {},
            degree => {
                s.append(" and acheived ");
                s.append(degree.to_string().as_str());
            },
        }
        s
    }
}

impl WorkView {
    /// The sentence for this position: the title, the company and the two
    /// years.
    pub open spec fn sentence(self) -> Seq<char> {
        "<b>"@ + self.position + "</b> at "@ + self.company + " from <i>"@ + decimal(
            self.start_year as nat,
        ) + "</i> to <i>"@ + decimal(self.end_year as nat) + "</i>"@
    }
}

impl Work {
    /// The sentence for this position.
    pub fn sentence(&self) -> (s: String)
        ensures
            s@ == self@.sentence(),
    {
        let mut s = String::from_str("<b>");
        s.append(self.position.as_str());
        s.append("</b> at ");
        s.append(self.company.as_str());
        s.append(" from <i>");
        push_decimal(&mut s, self.start_year);
        s.append("</i> to <i>");
        push_decimal(&mut s, self.end_year);
        s.append("</i>");
        s
    }
}

/// Ways to reach a person, each given or not.
#[derive(Debug, PartialEq, Eq, PartialOrd, Ord)]
pub struct ContactInfo {
    pub email: Option<String>,
    pub phone: Option<String>,
    pub website: Option<String>,
    pub github: Option<String>,
    pub linkedin: Option<String>,
}

/// Ways to reach a person, as a mathematical value.
pub struct ContactInfoView {
    pub email: Option<Seq<char>>,
    pub phone: Option<Seq<char>>,
    pub website: Option<Seq<char>>,
    pub github: Option<Seq<char>>,
    pub linkedin: Option<Seq<char>>,
}

impl View for ContactInfo {
    type V = ContactInfoView;

    open spec fn view(&self) -> ContactInfoView {
        ContactInfoView {
            email: option_text(self.email),
            phone: option_text(self.phone),
            website: option_text(self.website),
            github: option_text(self.github),
            linkedin: option_text(self.linkedin),
        }
    }
}

/// A resume: who, what they do, what they can do, and where they learned
/// and worked. Lists keep the order in which they were filled.
#[derive(Debug, PartialEq, Eq, PartialOrd, Ord)]
pub struct Resume {
    pub first_name: String,
    pub last_name: String,
    pub description: String,
    pub contact_info: ContactInfo,
    pub profession: String,
    pub skills: Vec<(String, Option<Proficiency>)>,
    pub education: Vec<Education>,
    pub work_experience: Vec<Work>,
}

/// A resume, as a mathematical value.
pub struct ResumeView {
    pub first_name: Seq<char>,
    pub last_name: Seq<char>,
    pub description: Seq<char>,
    pub contact_info: ContactInfoView,
    pub profession: Seq<char>,
    pub skills: Seq<(Seq<char>, Option<Proficiency>)>,
    pub education: Seq<EducationView>,
    pub work_experience: Seq<WorkView>,
}

impl View for Resume {
    type V = ResumeView;

    open spec fn view(&self) -> ResumeView {
        ResumeView {
            first_name: self.first_name@,
            last_name: self.last_name@,
            description: self.description@,
            contact_info: self.contact_info@,
            profession: self.profession@,
            skills: skills_view(self.skills@),
            education: education_view(self.education@),
            work_experience: work_view(self.work_experience@),
        }
    }
}

/// A heading, tinted and centred in its line.
pub open spec fn heading(title: Node, color: Color) -> Node {
    Node::Aligned(
        Box::new(Node::ColoredForeground(Box::new(title), color)),
        HorizontalAlignment::Center,
        VerticalAlignment::SameAsParent,
    )
}

/// The list item of a skill: its label alone where no level is given, else
/// the label beside a bar filled to the level's percentage and showing the
/// level's name.
pub open spec fn skill_node(label: Seq<char>, level: Option<Proficiency>) -> Node {
    match level {
        Some(l) => Node::Row(
            seq![Node::Text(label), Node::PercentBar(l.spec_percent() as u32, l.name())],
        ),
        None => Node::Text(label),
    }
}

impl ResumeView {
    /// The card that introduces the person: the full name as the page's
    /// title, the profession as an italic subtitle, and the description.
    pub open spec fn header(self) -> Node {
        Node::Section(
            Box::new(
                Node::Column(
                    seq![
                        heading(
                            Node::Title(self.first_name + " "@ + self.last_name),
                            Color::DefaultTitle,
                        ),
                        heading(
                            Node::Italics(Box::new(Node::SectionTitle(self.profession))),
                            Color::DefaultSubtitle,
                        ),
                        Node::Text(self.description),
                    ],
                ),
            ),
        )
    }

    /// The items of the skills list, one per skill, in order.
    pub open spec fn skill_items(self) -> Seq<Node> {
        Seq::new(self.skills.len(), |i: int| skill_node(self.skills[i].0, self.skills[i].1))
    }

    /// The card of skills: a heading above a centred bulleted list.
    pub open spec fn skills_panel(self) -> Node {
        Node::Section(
            Box::new(
                Node::Column(
                    seq![
                        heading(
                            Node::Italics(Box::new(Node::SectionTitle("Skills"@))),
                            Color::Pink,
                        ),
                        Node::Aligned(
                            Box::new(Node::UnorderedList(self.skill_items())),
                            HorizontalAlignment::Center,
                            VerticalAlignment::SameAsParent,
                        ),
                    ],
                ),
            ),
        )
    }

    /// The items of the education list, one sentence per course, in order.
    pub open spec fn education_items(self) -> Seq<Node> {
        Seq::new(self.education.len(), |i: int| Node::Text(self.education[i].sentence()))
    }

    /// The items of the work list, one sentence per position, in order.
    pub open spec fn work_items(self) -> Seq<Node> {
        Seq::new(
            self.work_experience.len(),
            |i: int| Node::Text(self.work_experience[i].sentence()),
        )
    }

    /// The card of history: education as a numbered list, then
    /// professional experience as a bulleted list, each under its heading.
    pub open spec fn history(self) -> Node {
        Node::Section(
            Box::new(
                Node::Column(
                    seq![
                        heading(Node::SectionTitle("Education"@), Color::Blue),
                        Node::OrderedList(self.education_items()),
                        heading(Node::SectionTitle("Professional Experience"@), Color::Blue),
                        Node::UnorderedList(self.work_items()),
                    ],
                ),
            ),
        )
    }

    /// The page of this resume: the header card beside the skills card,
    /// and the history card below them at full width.
    pub open spec fn document(self) -> Node {
        Node::Document(
            seq![
                Node::Container(
                    seq![
                        Node::Column(
                            seq![Node::Row(seq![self.header(), self.skills_panel()]), self.history()],
                        ),
                    ],
                ),
            ],
        )
    }
}

/// A tinted, centred heading is as sound as its title: it can be compiled
/// if the title can, and holds no bar out of range if the title holds none.
pub proof fn lemma_heading_sound(title: Node, color: Color)
    ensures
        supported(title) ==> supported(heading(title, color)),
        bars_in_range(title) ==> bars_in_range(heading(title, color)),
{
    let tinted = Node::ColoredForeground(Box::new(title), color);
    assert(supported(title) ==> supported(tinted));
    assert(bars_in_range(title) ==> bars_in_range(tinted));
}

/// The list item of a skill can always be compiled, and its bar, if it has
/// one, is in range.
pub proof fn lemma_skill_node_sound(label: Seq<char>, level: Option<Proficiency>)
    ensures
        supported(skill_node(label, level)),
        bars_in_range(skill_node(label, level)),
{
    match level {
        Some(l) => {
            let items = seq![Node::Text(label), Node::PercentBar(l.spec_percent() as u32, l.name())];
            assert(l.spec_percent() <= 100);
            assert forall|i: int| 0 <= i < items.len() implies supported(#[trigger] items[i])
                && bars_in_range(items[i]) by {
                if i == 0 {
                    assert(supported(items[0]) && bars_in_range(items[0]));
                } else {
                    assert(supported(items[1]) && bars_in_range(items[1]));
                }
            }
            assert(all_supported(items));
            assert(all_bars_in_range(items));
        },
        None => {},
    }
}

/// `title` tinted with `color` and centred in its line.
fn heading_of(title: HTML, color: Color) -> (tree: HTML)
    ensures
        tree@ == heading(title@, color),
{
    HTML::aligned(
        HTML::fg(title, color),
        HorizontalAlignment::Center,
        VerticalAlignment::SameAsParent,
    )
}

/// The list item of one skill.
fn skill_item(label: &str, level: Option<Proficiency>) -> (tree: HTML)
    ensures
        tree@ == skill_node(label@, level),
{
    match level {
        Some(l) => {
            let text = HTML::text(label);
            let bar = HTML::PercentBar(l.percent(), l.to_string());
            let ghost expected = seq![text@, bar@];
            let cells = vec![text, bar];
            assert(views(cells@) =~= expected);
            HTML::row(cells)
        },
        None => HTML::text(label),
    }
}

impl Resume {
    /// The card that introduces the person.
    fn header(&self) -> (tree: HTML)
        ensures
            tree@ == self@.header(),
    {
        let mut name = self.first_name.clone();
        name.append(" ");
        name.append(self.last_name.as_str());
        let title = heading_of(HTML::title(name.as_str()), Color::DefaultTitle);
        let subtitle = heading_of(
            HTML::italics(HTML::section_title(self.profession.as_str())),
            Color::DefaultSubtitle,
        );
        let description = HTML::text(self.description.as_str());
        let ghost expected = seq![title@, subtitle@, description@];
        let rows = vec![title, subtitle, description];
        assert(views(rows@) =~= expected);
        HTML::section(HTML::col(rows))
    }

    /// The items of the skills list.
    fn skill_items(&self) -> (items: Vec<HTML>)
        ensures
            views(items@) == self@.skill_items(),
    {
        let mut items: Vec<HTML> = Vec::new();
        let mut i: usize = 0;
        while i < self.skills.len()
            invariant
                i <= self.skills.len(),
                views(items@) =~= self@.skill_items().take(i as int),
            decreases self.skills.len() - i,
        {
            let item = skill_item(self.skills[i].0.as_str(), self.skills[i].1);
            let ghost before = views(items@);
            items.push(item);
            proof {
                assert(views(items@) =~= before.push(self@.skill_items()[i as int]));
                assert(self@.skill_items().take(i + 1) =~= self@.skill_items().take(i as int).push(
                    self@.skill_items()[i as int],
                ));
            }
            i += 1;
        }
        assert(self@.skill_items().take(i as int) =~= self@.skill_items());
        items
    }

    /// The card of skills.
    fn skills_panel(&self) -> (tree: HTML)
        ensures
            tree@ == self@.skills_panel(),
    {
        let title = heading_of(HTML::italics(HTML::section_title("Skills")), Color::Pink);
        let list = HTML::aligned(
            HTML::ul(self.skill_items()),
            HorizontalAlignment::Center,
            VerticalAlignment::SameAsParent,
        );
        let ghost expected = seq![title@, list@];
        let rows = vec![title, list];
        assert(views(rows@) =~= expected);
        HTML::section(HTML::col(rows))
    }

    /// The items of the education list.
    fn education_items(&self) -> (items: Vec<HTML>)
        ensures
            views(items@) == self@.education_items(),
    {
        let mut items: Vec<HTML> = Vec::new();
        let mut i: usize = 0;
        while i < self.education.len()
            invariant
                i <= self.education.len(),
                views(items@) =~= self@.education_items().take(i as int),
            decreases self.education.len() - i,
        {
            let item = HTML::text(self.education[i].sentence().as_str());
            let ghost before = views(items@);
            items.push(item);
            proof {
                assert(views(items@) =~= before.push(self@.education_items()[i as int]));
                assert(self@.education_items().take(i + 1) =~= self@.education_items().take(i as int).push(
                    self@.education_items()[i as int],
                ));
            }
            i += 1;
        }
        assert(self@.education_items().take(i as int) =~= self@.education_items());
        items
    }

    /// The items of the work list.
    fn work_items(&self) -> (items: Vec<HTML>)
        ensures
            views(items@) == self@.work_items(),
    {
        let mut items: Vec<HTML> = Vec::new();
        let mut i: usize = 0;
        while i < self.work_experience.len()
            invariant
                i <= self.work_experience.len(),
                views(items@) =~= self@.work_items().take(i as int),
            decreases self.work_experience.len() - i,
        {
            let item = HTML::text(self.work_experience[i].sentence().as_str());
            let ghost before = views(items@);
            items.push(item);
            proof {
                assert(views(items@) =~= before.push(self@.work_items()[i as int]));
                assert(self@.work_items().take(i + 1) =~= self@.work_items().take(i as int).push(
                    self@.work_items()[i as int],
                ));
            }
            i += 1;
        }
        assert(self@.work_items().take(i as int) =~= self@.work_items());
        items
    }

    /// The card of education and professional experience.
    fn history(&self) -> (tree: HTML)
        ensures
            tree@ == self@.history(),
    {
        let education_title = heading_of(HTML::section_title("Education"), Color::Blue);
        let education = HTML::ol(self.education_items());
        let work_title = heading_of(
            HTML::section_title("Professional Experience"),
            Color::Blue,
        );
        let work = HTML::ul(self.work_items());
        let ghost expected = seq![education_title@, education@, work_title@, work@];
        let rows = vec![education_title, education, work_title, work];
        assert(views(rows@) =~= expected);
        HTML::section(HTML::col(rows))
    }

    /// The page of this resume.
    ///
    /// The layout is fixed; only the texts, the list items and the bars
    /// come from the record. The page can always be compiled, and every
    /// bar in it is filled to at most 100 per cent.
    pub fn generate(&self) -> (tree: HTML)
        ensures
            tree@ == self@.document(),
            supported(tree@),
            bars_in_range(tree@),
    {
        let header = self.header();
        let skills = self.skills_panel();
        let ghost top_expected = seq![header@, skills@];
        let top = vec![header, skills];
        assert(views(top@) =~= top_expected);
        let top_row = HTML::row(top);
        let history = self.history();
        let ghost parts_expected = seq![top_row@, history@];
        let parts = vec![top_row, history];
        assert(views(parts@) =~= parts_expected);
        let column = HTML::col(parts);
        let ghost column_expected = seq![column@];
        let columns = vec![column];
        assert(views(columns@) =~= column_expected);
        let container = HTML::container(columns);
        let ghost container_expected = seq![container@];
        let containers = vec![container];
        assert(views(containers@) =~= container_expected);
        proof {
            lemma_document_sound(self@);
        }
        HTML::html(containers)
    }
}

/// The page of a resume is sound, whatever the record holds: it holds no
/// node that cannot be compiled, and every bar in it is filled to at most
/// 100 per cent.
pub proof fn lemma_document_sound(resume: ResumeView)
    ensures
        supported(resume.document()),
        bars_in_range(resume.document()),
{
    // the header card
    let title = Node::Title(resume.first_name + " "@ + resume.last_name);
    let profession = Node::SectionTitle(resume.profession);
    let subtitle = Node::Italics(Box::new(profession));
    assert(supported(profession) && bars_in_range(profession));
    assert(supported(subtitle) && bars_in_range(subtitle));
    lemma_heading_sound(title, Color::DefaultTitle);
    lemma_heading_sound(subtitle, Color::DefaultSubtitle);
    let header_rows = seq![
        heading(title, Color::DefaultTitle),
        heading(subtitle, Color::DefaultSubtitle),
        Node::Text(resume.description),
    ];
    assert(all_supported(header_rows) && all_bars_in_range(header_rows));
    assert(supported(Node::Column(header_rows)) && bars_in_range(Node::Column(header_rows)));
    assert(supported(resume.header()) && bars_in_range(resume.header()));

    // the skills card
    let skills_word = Node::SectionTitle("Skills"@);
    let skills_title = Node::Italics(Box::new(skills_word));
    assert(supported(skills_word) && bars_in_range(skills_word));
    assert(supported(skills_title) && bars_in_range(skills_title));
    lemma_heading_sound(skills_title, Color::Pink);
    assert forall|i: int| 0 <= i < resume.skill_items().len() implies supported(
        #[trigger] resume.skill_items()[i],
    ) && bars_in_range(resume.skill_items()[i]) by {
        lemma_skill_node_sound(resume.skills[i].0, resume.skills[i].1);
    }
    assert(all_supported(resume.skill_items()) && all_bars_in_range(resume.skill_items()));
    let bullets = Node::UnorderedList(resume.skill_items());
    let list = Node::Aligned(
        Box::new(bullets),
        HorizontalAlignment::Center,
        VerticalAlignment::SameAsParent,
    );
    assert(supported(bullets) && bars_in_range(bullets));
    assert(supported(list) && bars_in_range(list));
    let skills_rows = seq![heading(skills_title, Color::Pink), list];
    assert(all_supported(skills_rows) && all_bars_in_range(skills_rows));
    assert(supported(Node::Column(skills_rows)) && bars_in_range(Node::Column(skills_rows)));
    assert(supported(resume.skills_panel()) && bars_in_range(resume.skills_panel()));

    // the history card
    let education_word = Node::SectionTitle("Education"@);
    let work_word = Node::SectionTitle("Professional Experience"@);
    lemma_heading_sound(education_word, Color::Blue);
    lemma_heading_sound(work_word, Color::Blue);
    let courses = Node::OrderedList(resume.education_items());
    let positions = Node::UnorderedList(resume.work_items());
    assert(all_supported(resume.education_items()) && all_bars_in_range(
        resume.education_items(),
    ));
    assert(all_supported(resume.work_items()) && all_bars_in_range(resume.work_items()));
    assert(supported(courses) && bars_in_range(courses));
    assert(supported(positions) && bars_in_range(positions));
    let history_rows = seq![
        heading(education_word, Color::Blue),
        courses,
        heading(work_word, Color::Blue),
        positions,
    ];
    assert(all_supported(history_rows) && all_bars_in_range(history_rows));
    assert(supported(Node::Column(history_rows)) && bars_in_range(Node::Column(history_rows)));
    assert(supported(resume.history()) && bars_in_range(resume.history()));

    // the page around them
    let top = seq![resume.header(), resume.skills_panel()];
    assert(all_supported(top) && all_bars_in_range(top));
    assert(supported(Node::Row(top)) && bars_in_range(Node::Row(top)));
    let parts = seq![Node::Row(top), resume.history()];
    assert(all_supported(parts) && all_bars_in_range(parts));
    assert(supported(Node::Column(parts)) && bars_in_range(Node::Column(parts)));
    let columns = seq![Node::Column(parts)];
    assert(all_supported(columns) && all_bars_in_range(columns));
    assert(supported(Node::Container(columns)) && bars_in_range(Node::Container(columns)));
    let containers = seq![Node::Container(columns)];
    assert(all_supported(containers) && all_bars_in_range(containers));
}

/// A copy of an optional string.
pub fn clone_option_text(text: &Option<String>) -> (copy: Option<String>)
    ensures
        option_text(copy) == option_text(*text),
{
    match text {
        Some(t) => Some(t.clone()),
        None => None,
    }
}

impl Clone for Work {
    fn clone(&self) -> (copy: Self)
        ensures
            copy@ == self@,
    {
        Work {
            start_year: self.start_year,
            end_year: self.end_year,
            position: self.position.clone(),
            company: self.company.clone(),
            description: self.description.clone(),
        }
    }
}

impl Clone for Degree {
    fn clone(&self) -> (copy: Self)
        ensures
            copy@ == self@,
    {
        match self {
            Degree::Associates => Degree::Associates,
            Degree::Bachelors => Degree::Bachelors,
            Degree::Masters => Degree::Masters,
            Degree::PhD => Degree::PhD,
            Degree::HighSchoolDiploma => Degree::HighSchoolDiploma,
            Degree::Other(name) => Degree::Other(name.clone()),
            Degree::NoDegree => Degree::NoDegree,
        }
    }
}

impl Clone for Education {
    fn clone(&self) -> (copy: Self)
        ensures
            copy@ == self@,
    {
        Education {
            start_year: self.start_year,
            end_year: self.end_year,
            school: self.school.clone(),
            field: clone_option_text(&self.field),
            degree: self.degree.clone(),
        }
    }
}

impl Clone for ContactInfo {
    fn clone(&self) -> (copy: Self)
        ensures
            copy@ == self@,
    {
        ContactInfo {
            email: clone_option_text(&self.email),
            phone: clone_option_text(&self.phone),
            website: clone_option_text(&self.website),
            github: clone_option_text(&self.github),
            linkedin: clone_option_text(&self.linkedin),
        }
    }
}

/// What a list of skills holds.
pub open spec fn skills_view(skills: Seq<(String, Option<Proficiency>)>) -> Seq<
    (Seq<char>, Option<Proficiency>),
> {
    Seq::new(skills.len(), |i: int| (skills[i].0@, skills[i].1))
}

/// What a list of courses of education holds.
pub open spec fn education_view(education: Seq<Education>) -> Seq<EducationView> {
    Seq::new(education.len(), |i: int| education[i]@)
}

/// What a list of positions holds.
pub open spec fn work_view(work: Seq<Work>) -> Seq<WorkView> {
    Seq::new(work.len(), |i: int| work[i]@)
}

/// A copy of a list of skills.
pub fn clone_skills(skills: &Vec<(String, Option<Proficiency>)>) -> (copy: Vec<
    (String, Option<Proficiency>),
>)
    ensures
        skills_view(copy@) == skills_view(skills@),
{
    let mut copy: Vec<(String, Option<Proficiency>)> = Vec::new();
    let mut i: usize = 0;
    while i < skills.len()
        invariant
            i <= skills.len(),
            skills_view(copy@) =~= skills_view(skills@).take(i as int),
        decreases skills.len() - i,
    {
        let ghost before = skills_view(copy@);
        copy.push((skills[i].0.clone(), skills[i].1));
        proof {
            assert(skills_view(copy@) =~= before.push(skills_view(skills@)[i as int]));
            assert(skills_view(skills@).take(i + 1) =~= skills_view(skills@).take(i as int).push(
                skills_view(skills@)[i as int],
            ));
        }
        i += 1;
    }
    assert(skills_view(skills@).take(i as int) =~= skills_view(skills@));
    copy
}

/// A copy of a list of courses of education.
pub fn clone_education(education: &Vec<Education>) -> (copy: Vec<Education>)
    ensures
        education_view(copy@) == education_view(education@),
{
    let mut copy: Vec<Education> = Vec::new();
    let mut i: usize = 0;
    while i < education.len()
        invariant
            i <= education.len(),
            education_view(copy@) =~= education_view(education@).take(i as int),
        decreases education.len() - i,
    {
        let ghost before = education_view(copy@);
        copy.push(education[i].clone());
        proof {
            assert(education_view(copy@) =~= before.push(education_view(education@)[i as int]));
            assert(education_view(education@).take(i + 1) =~= education_view(education@).take(
                i as int,
            ).push(education_view(education@)[i as int]));
        }
        i += 1;
    }
    assert(education_view(education@).take(i as int) =~= education_view(education@));
    copy
}

/// A copy of a list of positions.
pub fn clone_work(work: &Vec<Work>) -> (copy: Vec<Work>)
    ensures
        work_view(copy@) == work_view(work@),
{
    let mut copy: Vec<Work> = Vec::new();
    let mut i: usize = 0;
    while i < work.len()
        invariant
            i <= work.len(),
            work_view(copy@) =~= work_view(work@).take(i as int),
        decreases work.len() - i,
    {
        let ghost before = work_view(copy@);
        copy.push(work[i].clone());
        proof {
            assert(work_view(copy@) =~= before.push(work_view(work@)[i as int]));
            assert(work_view(work@).take(i + 1) =~= work_view(work@).take(i as int).push(
                work_view(work@)[i as int],
            ));
        }
        i += 1;
    }
    assert(work_view(work@).take(i as int) =~= work_view(work@));
    copy
}

impl Clone for Resume {
    fn clone(&self) -> (copy: Self)
        ensures
            copy@ == self@,
    {
        Resume {
            first_name: self.first_name.clone(),
            last_name: self.last_name.clone(),
            description: self.description.clone(),
            contact_info: self.contact_info.clone(),
            profession: self.profession.clone(),
            skills: clone_skills(&self.skills),
            education: clone_education(&self.education),
            work_experience: clone_work(&self.work_experience),
        }
    }
}

/// How the texts of a record go into its page.
#[derive(Clone, Copy, Debug, PartialEq, Eq)]
pub enum TextPolicy {
    /// As they are: markup in a text is markup in the page. For texts
    /// that the author of the page wrote.
    Verbatim,
    /// Escaped: every text is shown as it was written, and none of it is
    /// read as markup. For texts from elsewhere.
    Escaped,
}

impl WorkView {
    /// This position with its texts escaped.
    pub open spec fn escaped(self) -> WorkView {
        WorkView {
            start_year: self.start_year,
            end_year: self.end_year,
            position: escaped(self.position),
            company: escaped(self.company),
            description: escaped(self.description),
        }
    }
}

impl DegreeView {
    /// This degree with its name, if it has one of its own, escaped.
    pub open spec fn escaped(self) -> DegreeView {
        match self {
            DegreeView::Other(name) => DegreeView::Other(escaped(name)),
            _ => self,
        }
    }
}

impl EducationView {
    /// This course of education with its texts escaped.
    pub open spec fn escaped(self) -> EducationView {
        EducationView {
            start_year: self.start_year,
            end_year: self.end_year,
            school: escaped(self.school),
            field: match self.field {
                Some(field) => Some(escaped(field)),
                None => None,
            },
            degree: self.degree.escaped(),
        }
    }
}

impl ResumeView {
    /// This resume with the texts that go into its page escaped. Contact
    /// information does not go into the page and stays as it is.
    pub open spec fn escaped(self) -> ResumeView {
        ResumeView {
            first_name: escaped(self.first_name),
            last_name: escaped(self.last_name),
            description: escaped(self.description),
            contact_info: self.contact_info,
            profession: escaped(self.profession),
            skills: Seq::new(self.skills.len(), |i: int| (escaped(self.skills[i].0), self.skills[i].1)),
            education: Seq::new(self.education.len(), |i: int| self.education[i].escaped()),
            work_experience: Seq::new(
                self.work_experience.len(),
                |i: int| self.work_experience[i].escaped(),
            ),
        }
    }

    /// The page of this resume under `policy`.
    pub open spec fn document_with(self, policy: TextPolicy) -> Node {
        match policy {
            TextPolicy::Verbatim => self.document(),
            TextPolicy::Escaped => self.escaped().document(),
        }
    }
}

impl Work {
    /// This position with its texts escaped.
    pub fn escaped(&self) -> (out: Self)
        ensures
            out@ == self@.escaped(),
    {
        Work {
            start_year: self.start_year,
            end_year: self.end_year,
            position: escape(self.position.as_str()),
            company: escape(self.company.as_str()),
            description: escape(self.description.as_str()),
        }
    }
}

impl Degree {
    /// This degree with its name, if it has one of its own, escaped.
    pub fn escaped(&self) -> (out: Self)
        ensures
            out@ == self@.escaped(),
    {
        match self {
            Degree::Other(name) => Degree::Other(escape(name.as_str())),
            other => other.clone(),
        }
    }
}

impl Education {
    /// This course of education with its texts escaped.
    pub fn escaped(&self) -> (out: Self)
        ensures
            out@ == self@.escaped(),
    {
        Education {
            start_year: self.start_year,
            end_year: self.end_year,
            school: escape(self.school.as_str()),
            field: match &self.field {
                Some(field) => Some(escape(field.as_str())),
                None => None,
            },
            degree: self.degree.escaped(),
        }
    }
}

impl Resume {
    /// This resume with the texts that go into its page escaped.
    pub fn escaped(&self) -> (out: Self)
        ensures
            out@ == self@.escaped(),
    {
        let mut skills: Vec<(String, Option<Proficiency>)> = Vec::new();
        let mut i: usize = 0;
        while i < self.skills.len()
            invariant
                i <= self.skills.len(),
                skills_view(skills@) =~= self@.escaped().skills.take(i as int),
            decreases self.skills.len() - i,
        {
            let ghost before = skills_view(skills@);
            skills.push((escape(self.skills[i].0.as_str()), self.skills[i].1));
            proof {
                let all = self@.escaped().skills;
                assert(skills_view(skills@) =~= before.push(all[i as int]));
                assert(all.take(i + 1) =~= all.take(i as int).push(all[i as int]));
            }
            i += 1;
        }
        let mut education: Vec<Education> = Vec::new();
        let mut j: usize = 0;
        while j < self.education.len()
            invariant
                j <= self.education.len(),
                education_view(education@) =~= self@.escaped().education.take(j as int),
            decreases self.education.len() - j,
        {
            let ghost before = education_view(education@);
            education.push(self.education[j].escaped());
            proof {
                let all = self@.escaped().education;
                assert(education_view(education@) =~= before.push(all[j as int]));
                assert(all.take(j + 1) =~= all.take(j as int).push(all[j as int]));
            }
            j += 1;
        }
        let mut work: Vec<Work> = Vec::new();
        let mut k: usize = 0;
        while k < self.work_experience.len()
            invariant
                k <= self.work_experience.len(),
                work_view(work@) =~= self@.escaped().work_experience.take(k as int),
            decreases self.work_experience.len() - k,
        {
            let ghost before = work_view(work@);
            work.push(self.work_experience[k].escaped());
            proof {
                let all = self@.escaped().work_experience;
                assert(work_view(work@) =~= before.push(all[k as int]));
                assert(all.take(k + 1) =~= all.take(k as int).push(all[k as int]));
            }
            k += 1;
        }
        proof {
            let target = self@.escaped();
            assert(target.skills.take(i as int) =~= target.skills);
            assert(target.education.take(j as int) =~= target.education);
            assert(target.work_experience.take(k as int) =~= target.work_experience);
        }
        Resume {
            first_name: escape(self.first_name.as_str()),
            last_name: escape(self.last_name.as_str()),
            description: escape(self.description.as_str()),
            contact_info: self.contact_info.clone(),
            profession: escape(self.profession.as_str()),
            skills,
            education,
            work_experience: work,
        }
    }

    /// The page of this resume, with its texts taken as `policy` says.
    ///
    /// `generate` takes them as they are.
    pub fn generate_with(&self, policy: TextPolicy) -> (tree: HTML)
        ensures
            tree@ == self@.document_with(policy),
            supported(tree@),
            bars_in_range(tree@),
    {
        match policy {
            TextPolicy::Verbatim => self.generate(),
            TextPolicy::Escaped => self.escaped().generate(),
        }
    }
}

} // verus!
