//! The step-by-step collection of a resume: what each step holds, what a
//! message changes, when the next step may be taken, and what is saved at
//! the end.
//!
//! Nothing here draws or writes anything. A front end shows the current
//! step, hands every message to `Steps::handle`, and writes the page when
//! the answer is `Action::Save`.

use vstd::prelude::*;
use crate::html::render;
use crate::resume::{
    clone_education, clone_skills, clone_work, education_view, skills_view, work_view,
    ContactInfo, ContactInfoView, Degree, DegreeView, Education, EducationView, Proficiency,
    Resume, ResumeView, Work, WorkView,
};
use crate::text::{parse_number, parse_u32};
use crate::themes::ThemeOption;

verus! {

/// What the user did.
#[derive(Debug, Clone)]
pub enum Message {
    BackPressed,
    NextPressed,
    FirstNameChanged(String),
    LastNameChanged(String),
    StartYearChanged(String),
    EndYearChanged(String),
    PositionChanged(String),
    CompanyChanged(String),
    DescriptionChanged(String),
    DegreeSelected(Degree),
    ContactsChanged(ContactInfo),
    ProficiencySelected(Proficiency),
    SaveFileChanged(String),
    ThemeSelected(ThemeOption),
    AddEducation,
    AddWork,
    AddSkill,
    SaveFile,
    Clear,
}

/// One screen of the wizard, with what has been entered on it.
#[derive(Debug, Clone)]
pub enum Step {
    Welcome,
    Name { first_name: String, last_name: String },
    Profession { text: String },
    ContactInfo { info: ContactInfo },
    Description { text: String },
    Skills { skills: Vec<(String, Option<Proficiency>)>, selection: Option<Proficiency>, text: String },
    Education {
        education_history: Vec<Education>,
        degree: Option<Degree>,
        field: String,
        start_year: String,
        end_year: String,
        school: String,
    },
    Work {
        work_history: Vec<Work>,
        start_year: String,
        end_year: String,
        position: String,
        company: String,
        description: String,
    },
    End { theme: ThemeOption, save_file: String },
}

/// One screen of the wizard, as a mathematical value.
pub enum StepView {
    Welcome,
    Name { first_name: Seq<char>, last_name: Seq<char> },
    Profession { text: Seq<char> },
    ContactInfo { info: ContactInfoView },
    Description { text: Seq<char> },
    Skills {
        skills: Seq<(Seq<char>, Option<Proficiency>)>,
        selection: Option<Proficiency>,
        text: Seq<char>,
    },
    Education {
        education_history: Seq<EducationView>,
        degree: Option<DegreeView>,
        field: Seq<char>,
        start_year: Seq<char>,
        end_year: Seq<char>,
        school: Seq<char>,
    },
    Work {
        work_history: Seq<WorkView>,
        start_year: Seq<char>,
        end_year: Seq<char>,
        position: Seq<char>,
        company: Seq<char>,
        description: Seq<char>,
    },
    End { theme: ThemeOption, save_file: Seq<char> },
}

/// What an optional degree holds, if anything.
pub open spec fn option_degree(degree: Option<Degree>) -> Option<DegreeView> {
    match degree {
        Some(d) => Some(d@),
        None => None,
    }
}

impl View for Step {
    type V = StepView;

    open spec fn view(&self) -> StepView {
        match self {
            Step::Welcome => StepView::Welcome,
            Step::Name { first_name, last_name } => StepView::Name {
                first_name: first_name@,
                last_name: last_name@,
            },
            Step::Profession { text } => StepView::Profession { text: text@ },
            Step::ContactInfo { info } => StepView::ContactInfo { info: info@ },
            Step::Description { text } => StepView::Description { text: text@ },
            Step::Skills { skills, selection, text } => StepView::Skills {
                skills: skills_view(skills@),
                selection: *selection,
                text: text@,
            },
            Step::Education {
                education_history,
                degree,
                field,
                start_year,
                end_year,
                school,
            } => StepView::Education {
                education_history: education_view(education_history@),
                degree: option_degree(*degree),
                field: field@,
                start_year: start_year@,
                end_year: end_year@,
                school: school@,
            },
            Step::Work {
                work_history,
                start_year,
                end_year,
                position,
                company,
                description,
            } => StepView::Work {
                work_history: work_view(work_history@),
                start_year: start_year@,
                end_year: end_year@,
                position: position@,
                company: company@,
                description: description@,
            },
            Step::End { theme, save_file } => StepView::End { theme: *theme, save_file: save_file@ },
        }
    }
}

impl StepView {
    /// The name of this screen.
    pub open spec fn title(self) -> Seq<char> {
        match self {
            StepView::Welcome => "Welcome"@,
            StepView::Name { .. } => "Name"@,
            StepView::Profession { .. } => "Profession"@,
            StepView::ContactInfo { .. } => "Contact Information"@,
            StepView::Description { .. } => "Description"@,
            StepView::Skills { .. } => "Skills"@,
            StepView::Education { .. } => "Education"@,
            StepView::Work { .. } => "Work"@,
            StepView::End { .. } => "End"@,
        }
    }

    /// Whether what has been entered on this screen lets the user go on:
    /// both names, a profession and a description must be given; the last
    /// screen has nothing behind it.
    pub open spec fn can_continue(self) -> bool {
        match self {
            StepView::Name { first_name, last_name } => first_name.len() > 0 && last_name.len() > 0,
            StepView::Profession { text } => text.len() > 0,
            StepView::Description { text } => text.len() > 0,
            StepView::End { .. } => false,
            _ => true,
        }
    }

    /// Whether this screen offers to add what its fields hold: a skill
    /// needs a label; a course of education a school and two years that
    /// are numbers; a position a title, a company, a description and two
    /// years that are numbers. The other screens add nothing.
    pub open spec fn can_add(self) -> bool {
        match self {
            StepView::Skills { text, .. } => text.len() > 0,
            StepView::Education { school, start_year, end_year, .. } => school.len() > 0
                && parse_number(start_year) is Some && parse_number(end_year) is Some,
            StepView::Work { position, company, description, start_year, end_year, .. } =>
                position.len() > 0 && company.len() > 0 && description.len() > 0 && parse_number(
                    start_year,
                ) is Some && parse_number(end_year) is Some,
            _ => false,
        }
    }

    /// Whether `msg` can come from this screen. A message about years, a
    /// position, a company or a description belongs to a screen with
    /// that field; clearing belongs to a screen with a list; and an entry
    /// is added to education or work only with two years that are
    /// numbers.
    pub open spec fn accepts(self, msg: Message) -> bool {
        match msg {
            Message::StartYearChanged(_)
            | Message::EndYearChanged(_)
            | Message::PositionChanged(_)
            | Message::CompanyChanged(_) => self is Work || self is Education,
            Message::DescriptionChanged(_) => self is Description || self is Skills
                || self is Profession || self is Work,
            Message::Clear => self is Skills || self is Education || self is Work,
            Message::AddEducation => match self {
                StepView::Education { start_year, end_year, .. } => parse_number(start_year)
                    is Some && parse_number(end_year) is Some,
                _ => true,
            },
            Message::AddWork => match self {
                StepView::Work { start_year, end_year, .. } => parse_number(start_year) is Some
                    && parse_number(end_year) is Some,
                _ => true,
            },
            _ => true,
        }
    }

    /// This screen after `msg`.
    ///
    /// A changed field takes the new value. A selection is remembered.
    /// Adding appends what the fields hold to the screen's list and empties
    /// the fields; clearing empties the list too. A message that does not
    /// concern this screen leaves it as it is.
    pub open spec fn after(self, msg: Message) -> StepView {
        match (msg, self) {
            (Message::FirstNameChanged(name), StepView::Name { first_name, last_name }) =>
                StepView::Name { first_name: name@, last_name },
            (Message::LastNameChanged(name), StepView::Name { first_name, last_name }) =>
                StepView::Name { first_name, last_name: name@ },
            (
                Message::StartYearChanged(year),
                StepView::Work { work_history, start_year, end_year, position, company, description },
            ) => StepView::Work {
                work_history,
                start_year: year@,
                end_year,
                position,
                company,
                description,
            },
            (
                Message::StartYearChanged(year),
                StepView::Education { education_history, degree, field, start_year, end_year, school },
            ) => StepView::Education {
                education_history,
                degree,
                field,
                start_year: year@,
                end_year,
                school,
            },
            (
                Message::EndYearChanged(year),
                StepView::Work { work_history, start_year, end_year, position, company, description },
            ) => StepView::Work {
                work_history,
                start_year,
                end_year: year@,
                position,
                company,
                description,
            },
            (
                Message::EndYearChanged(year),
                StepView::Education { education_history, degree, field, start_year, end_year, school },
            ) => StepView::Education {
                education_history,
                degree,
                field,
                start_year,
                end_year: year@,
                school,
            },
            (
                Message::PositionChanged(title),
                StepView::Work { work_history, start_year, end_year, position, company, description },
            ) => StepView::Work {
                work_history,
                start_year,
                end_year,
                position: title@,
                company,
                description,
            },
            (
                Message::PositionChanged(title),
                StepView::Education { education_history, degree, field, start_year, end_year, school },
            ) => StepView::Education {
                education_history,
                degree,
                field: title@,
                start_year,
                end_year,
                school,
            },
            (
                Message::CompanyChanged(name),
                StepView::Work { work_history, start_year, end_year, position, company, description },
            ) => StepView::Work {
                work_history,
                start_year,
                end_year,
                position,
                company: name@,
                description,
            },
            (
                Message::CompanyChanged(name),
                StepView::Education { education_history, degree, field, start_year, end_year, school },
            ) => StepView::Education {
                education_history,
                degree,
                field,
                start_year,
                end_year,
                school: name@,
            },
            (Message::DescriptionChanged(desc), StepView::Description { text }) =>
                StepView::Description { text: desc@ },
            (Message::DescriptionChanged(desc), StepView::Profession { text }) =>
                StepView::Profession { text: desc@ },
            (Message::DescriptionChanged(desc), StepView::Skills { skills, selection, text }) =>
                StepView::Skills { skills, selection, text: desc@ },
            (
                Message::DescriptionChanged(desc),
                StepView::Work { work_history, start_year, end_year, position, company, description },
            ) => StepView::Work {
                work_history,
                start_year,
                end_year,
                position,
                company,
                description: desc@,
            },
            (
                Message::DegreeSelected(d),
                StepView::Education { education_history, degree, field, start_year, end_year, school },
            ) => StepView::Education {
                education_history,
                degree: Some(d@),
                field,
                start_year,
                end_year,
                school,
            },
            (Message::ContactsChanged(contacts), StepView::ContactInfo { info }) =>
                StepView::ContactInfo { info: contacts@ },
            (Message::ProficiencySelected(level), StepView::Skills { skills, selection, text }) =>
                StepView::Skills { skills, selection: Some(level), text },
            (Message::AddSkill, StepView::Skills { skills, selection, text }) => StepView::Skills {
                skills: skills.push((text, selection)),
                selection: None,
                text: Seq::empty(),
            },
            (Message::ThemeSelected(t), StepView::End { theme, save_file }) => StepView::End {
                theme: t,
                save_file,
            },
            (Message::SaveFileChanged(name), StepView::End { theme, save_file }) => StepView::End {
                theme,
                save_file: name@,
            },
            (
                Message::AddEducation,
                StepView::Education { education_history, degree, field, start_year, end_year, school },
            ) => StepView::Education {
                education_history: education_history.push(
                    EducationView {
                        start_year: parse_number(start_year).unwrap(),
                        end_year: parse_number(end_year).unwrap(),
                        school,
                        field: if field.len() == 0 {
                            None
                        } else {
                            Some(field)
                        },
                        degree: match degree {
                            Some(d) => d,
                            None => DegreeView::NoDegree,
                        },
                    },
                ),
                degree: None,
                field: Seq::empty(),
                start_year: Seq::empty(),
                end_year: Seq::empty(),
                school: Seq::empty(),
            },
            (
                Message::AddWork,
                StepView::Work { work_history, start_year, end_year, position, company, description },
            ) => StepView::Work {
                work_history: work_history.push(
                    WorkView {
                        start_year: parse_number(start_year).unwrap(),
                        end_year: parse_number(end_year).unwrap(),
                        position,
                        company,
                        description,
                    },
                ),
                start_year: Seq::empty(),
                end_year: Seq::empty(),
                position: Seq::empty(),
                company: Seq::empty(),
                description: Seq::empty(),
            },
            (Message::Clear, StepView::Skills { .. }) => StepView::Skills {
                skills: Seq::empty(),
                selection: None,
                text: Seq::empty(),
            },
            (Message::Clear, StepView::Education { .. }) => StepView::Education {
                education_history: Seq::empty(),
                degree: None,
                field: Seq::empty(),
                start_year: Seq::empty(),
                end_year: Seq::empty(),
                school: Seq::empty(),
            },
            (Message::Clear, StepView::Work { .. }) => StepView::Work {
                work_history: Seq::empty(),
                start_year: Seq::empty(),
                end_year: Seq::empty(),
                position: Seq::empty(),
                company: Seq::empty(),
                description: Seq::empty(),
            },
            _ => self,
        }
    }
}

impl Step {
    /// The name of this screen.
    pub fn title(&self) -> (title: &'static str)
        ensures
            title@ == self@.title(),
    {
        match self {
            Step::Welcome => "Welcome",
            Step::Name { .. } => "Name",
            Step::Profession { .. } => "Profession",
            Step::ContactInfo { .. } => "Contact Information",
            Step::Description { .. } => "Description",
            Step::Skills { .. } => "Skills",
            Step::Education { .. } => "Education",
            Step::Work { .. } => "Work",
            Step::End { .. } => "End",
        }
    }

    /// Whether what has been entered on this screen lets the user go on.
    pub fn can_continue(&self) -> (ok: bool)
        ensures
            ok == self@.can_continue(),
    {
        match self {
            Step::Name { first_name, last_name } => !first_name.as_str().is_empty()
                && !last_name.as_str().is_empty(),
            Step::Profession { text } => !text.as_str().is_empty(),
            Step::Description { text } => !text.as_str().is_empty(),
            Step::End { .. } => false,
            _ => true,
        }
    }

    /// Whether this screen offers to add what its fields hold.
    pub fn can_add(&self) -> (ok: bool)
        ensures
            ok == self@.can_add(),
    {
        match self {
            Step::Skills { text, .. } => !text.as_str().is_empty(),
            Step::Education { school, start_year, end_year, .. } => !school.as_str().is_empty()
                && parse_u32(start_year.as_str()).is_some() && parse_u32(
                end_year.as_str(),
            ).is_some(),
            Step::Work { position, company, description, start_year, end_year, .. } =>
                !position.as_str().is_empty() && !company.as_str().is_empty()
                    && !description.as_str().is_empty() && parse_u32(start_year.as_str()).is_some()
                    && parse_u32(end_year.as_str()).is_some(),
            _ => false,
        }
    }

    /// Whether `msg` can come from this screen.
    pub fn accepts(&self, msg: &Message) -> (ok: bool)
        ensures
            ok == self@.accepts(*msg),
    {
        match msg {
            Message::StartYearChanged(_)
            | Message::EndYearChanged(_)
            | Message::PositionChanged(_)
            | Message::CompanyChanged(_) => match self {
                Step::Work { .. } => true,
                Step::Education { .. } => true,
                _ => false,
            },
            Message::DescriptionChanged(_) => match self {
                Step::Description { .. } => true,
                Step::Skills { .. } => true,
                Step::Profession { .. } => true,
                Step::Work { .. } => true,
                _ => false,
            },
            Message::Clear => match self {
                Step::Skills { .. } => true,
                Step::Education { .. } => true,
                Step::Work { .. } => true,
                _ => false,
            },
            Message::AddEducation => match self {
                Step::Education { start_year, end_year, .. } => parse_u32(
                    start_year.as_str(),
                ).is_some() && parse_u32(end_year.as_str()).is_some(),
                _ => true,
            },
            Message::AddWork => match self {
                Step::Work { start_year, end_year, .. } => parse_u32(start_year.as_str()).is_some()
                    && parse_u32(end_year.as_str()).is_some(),
                _ => true,
            },
            _ => true,
        }
    }

    /// Takes `msg` into this screen.
    pub fn update(&mut self, msg: Message)
        requires
            old(self)@.accepts(msg),
        ensures
            final(self)@ == old(self)@.after(msg),
    {
        match msg {
            Message::FirstNameChanged(name) => {
                match self {
                    Step::Name { first_name, .. } => {
                        *first_name = name;
                    },
                    _ => {},
                }
            },
            Message::LastNameChanged(name) => {
                match self {
                    Step::Name { last_name, .. } => {
                        *last_name = name;
                    },
                    _ => {},
                }
            },
            Message::StartYearChanged(year) => {
                match self {
                    Step::Work { start_year, .. } => {
                        *start_year = year;
                    },
                    Step::Education { start_year, .. } => {
                        *start_year = year;
                    },
                    _ => {},
                }
            },
            Message::EndYearChanged(year) => {
                match self {
                    Step::Work { end_year, .. } => {
                        *end_year = year;
                    },
                    Step::Education { end_year, .. } => {
                        *end_year = year;
                    },
                    _ => {},
                }
            },
            Message::PositionChanged(title) => {
                match self {
                    Step::Work { position, .. } => {
                        *position = title;
                    },
                    Step::Education { field, .. } => {
                        *field = title;
                    },
                    _ => {},
                }
            },
            Message::CompanyChanged(name) => {
                match self {
                    Step::Work { company, .. } => {
                        *company = name;
                    },
                    Step::Education { school, .. } => {
                        *school = name;
                    },
                    _ => {},
                }
            },
            Message::DescriptionChanged(desc) => {
                match self {
                    Step::Description { text } => {
                        *text = desc;
                    },
                    Step::Skills { text, .. } => {
                        *text = desc;
                    },
                    Step::Profession { text } => {
                        *text = desc;
                    },
                    Step::Work { description, .. } => {
                        *description = desc;
                    },
                    _ => {},
                }
            },
            Message::DegreeSelected(d) => {
                match self {
                    Step::Education { degree, .. } => {
                        *degree = Some(d);
                    },
                    _ => {},
                }
            },
            Message::ContactsChanged(contacts) => {
                match self {
                    Step::ContactInfo { info } => {
                        *info = contacts;
                    },
                    _ => {},
                }
            },
            Message::ProficiencySelected(level) => {
                match self {
                    Step::Skills { selection, .. } => {
                        *selection = Some(level);
                    },
                    _ => {},
                }
            },
            Message::AddSkill => {
                match self {
                    Step::Skills { skills, selection, text } => {
                        let ghost before = skills_view(skills@);
                        let ghost entry = (text@, *selection);
                        skills.push((text.clone(), *selection));
                        assert(skills_view(skills@) =~= before.push(entry));
                        *selection = None;
                        *text = String::new();
                    },
                    _ => {},
                }
            },
            Message::ThemeSelected(t) => {
                match self {
                    Step::End { theme, .. } => {
                        *theme = t;
                    },
                    _ => {},
                }
            },
            Message::SaveFileChanged(name) => {
                match self {
                    Step::End { save_file, .. } => {
                        *save_file = name;
                    },
                    _ => {},
                }
            },
            Message::AddEducation => {
                match self {
                    Step::Education {
                        education_history,
                        degree,
                        field,
                        start_year,
                        end_year,
                        school,
                    } => {
                        let start = parse_u32(start_year.as_str());
                        let end = parse_u32(end_year.as_str());
                        if let (Some(start), Some(end)) = (start, end) {
                            let entry = Education {
                                start_year: start,
                                end_year: end,
                                school: school.clone(),
                                field: if field.as_str().is_empty() {
                                    None
                                } else {
                                    Some(field.clone())
                                },
                                degree: match degree {
                                    Some(d) => d.clone(),
                                    None => Degree::NoDegree,
                                },
                            };
                            let ghost before = education_view(education_history@);
                            let ghost added = entry@;
                            education_history.push(entry);
                            assert(education_view(education_history@) =~= before.push(added));
                            *degree = None;
                            *field = String::new();
                            *start_year = String::new();
                            *end_year = String::new();
                            *school = String::new();
                        }
                    },
                    _ => {},
                }
            },
            Message::AddWork => {
                match self {
                    Step::Work {
                        work_history,
                        start_year,
                        end_year,
                        position,
                        company,
                        description,
                    } => {
                        let start = parse_u32(start_year.as_str());
                        let end = parse_u32(end_year.as_str());
                        if let (Some(start), Some(end)) = (start, end) {
                            let entry = Work {
                                start_year: start,
                                end_year: end,
                                position: position.clone(),
                                company: company.clone(),
                                description: description.clone(),
                            };
                            let ghost before = work_view(work_history@);
                            let ghost added = entry@;
                            work_history.push(entry);
                            assert(work_view(work_history@) =~= before.push(added));
                            *start_year = String::new();
                            *end_year = String::new();
                            *position = String::new();
                            *company = String::new();
                            *description = String::new();
                        }
                    },
                    _ => {},
                }
            },
            Message::Clear => {
                match self {
                    Step::Skills { skills, selection, text } => {
                        *skills = Vec::new();
                        assert(skills_view(skills@) =~= Seq::empty());
                        *selection = None;
                        *text = String::new();
                    },
                    Step::Education {
                        education_history,
                        degree,
                        field,
                        start_year,
                        end_year,
                        school,
                    } => {
                        *education_history = Vec::new();
                        assert(education_view(education_history@) =~= Seq::empty());
                        *degree = None;
                        *field = String::new();
                        *start_year = String::new();
                        *end_year = String::new();
                        *school = String::new();
                    },
                    Step::Work {
                        work_history,
                        start_year,
                        end_year,
                        position,
                        company,
                        description,
                    } => {
                        *work_history = Vec::new();
                        assert(work_view(work_history@) =~= Seq::empty());
                        *start_year = String::new();
                        *end_year = String::new();
                        *position = String::new();
                        *company = String::new();
                        *description = String::new();
                    },
                    _ => {},
                }
            },
            Message::SaveFile => {},
            Message::NextPressed => {},
            Message::BackPressed => {},
        }
    }
}

/// The wizard: its screens in order, and the one that is shown.
#[derive(Debug, Clone)]
pub struct Steps {
    pub steps: Vec<Step>,
    pub current: usize,
}

/// The wizard, as a mathematical value.
pub struct StepsView {
    pub steps: Seq<StepView>,
    pub current: nat,
}

/// What the front end has to do after a message.
#[derive(Debug, Clone, PartialEq, Eq)]
pub enum Action {
    Nothing,
    /// Write `contents` to the file at `path`.
    Save { path: String, contents: String },
}

/// What a list of screens holds.
pub open spec fn step_views(steps: Seq<Step>) -> Seq<StepView> {
    Seq::new(steps.len(), |i: int| steps[i]@)
}

impl View for Steps {
    type V = StepsView;

    open spec fn view(&self) -> StepsView {
        StepsView { steps: step_views(self.steps@), current: self.current as nat }
    }
}

/// A resume and the theme to show it in.
pub struct Gathered {
    pub resume: ResumeView,
    pub theme: ThemeOption,
}

/// The screens of a new wizard: nothing entered, the default theme
/// chosen, and `resume.html` as the file to save to.
pub open spec fn initial_steps() -> Seq<StepView> {
    seq![
        StepView::Welcome,
        StepView::Name { first_name: Seq::empty(), last_name: Seq::empty() },
        StepView::Profession { text: Seq::empty() },
        StepView::Description { text: Seq::empty() },
        StepView::Skills { skills: Seq::empty(), selection: None, text: Seq::empty() },
        StepView::Education {
            education_history: Seq::empty(),
            degree: None,
            field: Seq::empty(),
            start_year: Seq::empty(),
            end_year: Seq::empty(),
            school: Seq::empty(),
        },
        StepView::Work {
            work_history: Seq::empty(),
            start_year: Seq::empty(),
            end_year: Seq::empty(),
            position: Seq::empty(),
            company: Seq::empty(),
            description: Seq::empty(),
        },
        StepView::End { theme: ThemeOption::Default, save_file: "resume.html"@ },
    ]
}

/// What the screens have collected: each screen gives what it is about,
/// a later screen of a kind overrides an earlier one, and what no screen
/// gives is empty. The theme is the default one unless the last screen
/// says otherwise. Contact information is not collected.
pub open spec fn gather(steps: Seq<StepView>) -> Gathered
    decreases steps.len(),
{
    if steps.len() == 0 {
        Gathered {
            resume: ResumeView {
                first_name: Seq::empty(),
                last_name: Seq::empty(),
                description: Seq::empty(),
                contact_info: ContactInfoView {
                    email: None,
                    phone: None,
                    website: None,
                    github: None,
                    linkedin: None,
                },
                profession: Seq::empty(),
                skills: Seq::empty(),
                education: Seq::empty(),
                work_experience: Seq::empty(),
            },
            theme: ThemeOption::Default,
        }
    } else {
        let before = gather(steps.drop_last());
        match steps.last() {
            StepView::Name { first_name, last_name } => Gathered {
                resume: ResumeView { first_name, last_name, ..before.resume },
                theme: before.theme,
            },
            StepView::Profession { text } => Gathered {
                resume: ResumeView { profession: text, ..before.resume },
                theme: before.theme,
            },
            StepView::Description { text } => Gathered {
                resume: ResumeView { description: text, ..before.resume },
                theme: before.theme,
            },
            StepView::Skills { skills, .. } => Gathered {
                resume: ResumeView { skills, ..before.resume },
                theme: before.theme,
            },
            StepView::Education { education_history, .. } => Gathered {
                resume: ResumeView { education: education_history, ..before.resume },
                theme: before.theme,
            },
            StepView::Work { work_history, .. } => Gathered {
                resume: ResumeView { work_experience: work_history, ..before.resume },
                theme: before.theme,
            },
            StepView::End { theme, .. } => Gathered { resume: before.resume, theme },
            _ => before,
        }
    }
}

impl StepsView {
    /// There is a screen, and the one shown is one of them.
    pub open spec fn wf(self) -> bool {
        self.current < self.steps.len()
    }

    /// The page that would be saved now.
    pub open spec fn page(self) -> Seq<char> {
        render(gather(self.steps).resume.document(), &gather(self.steps).theme)
    }

    /// Whether `msg` asks to save the page: it does on the last screen.
    pub open spec fn saves(self, msg: Message) -> bool {
        msg is SaveFile && self.steps[self.current as int] is End
    }

    /// Whether `msg` can come now: going back needs a screen to go back
    /// to, and what concerns a screen must fit the one that is shown.
    pub open spec fn accepts(self, msg: Message) -> bool {
        match msg {
            Message::BackPressed => self.current > 0,
            Message::NextPressed => true,
            _ => self.steps[self.current as int].accepts(msg),
        }
    }

    /// The wizard after `msg`: one screen on, but not past the last; one
    /// screen back; or the same screen with `msg` taken in.
    pub open spec fn after(self, msg: Message) -> StepsView {
        match msg {
            Message::NextPressed => StepsView {
                steps: self.steps,
                current: if self.current + 1 < self.steps.len() {
                    self.current + 1
                } else {
                    self.current
                },
            },
            Message::BackPressed => StepsView {
                steps: self.steps,
                current: (self.current - 1) as nat,
            },
            _ => StepsView {
                steps: self.steps.update(
                    self.current as int,
                    self.steps[self.current as int].after(msg),
                ),
                current: self.current,
            },
        }
    }
}

impl Steps {
    /// A new wizard, at its first screen.
    pub fn new() -> (wizard: Self)
        ensures
            wizard@.wf(),
            wizard@ == (StepsView { steps: initial_steps(), current: 0 }),
    {
        let steps = vec![
            Step::Welcome,
            Step::Name { first_name: String::new(), last_name: String::new() },
            Step::Profession { text: String::new() },
            Step::Description { text: String::new() },
            Step::Skills { skills: Vec::new(), selection: None, text: String::new() },
            Step::Education {
                education_history: Vec::new(),
                degree: None,
                field: String::new(),
                start_year: String::new(),
                end_year: String::new(),
                school: String::new(),
            },
            Step::Work {
                work_history: Vec::new(),
                start_year: String::new(),
                end_year: String::new(),
                position: String::new(),
                company: String::new(),
                description: String::new(),
            },
            Step::End { theme: ThemeOption::Default, save_file: String::from_str("resume.html") },
        ];
        proof {
            let views = step_views(steps@);
            assert(views.len() == 8);
            assert(views[4] == initial_steps()[4]) by {
                assert(steps@[4]@->Skills_skills =~= Seq::empty());
            }
            assert(views[5] == initial_steps()[5]) by {
                assert(steps@[5]@->Education_education_history =~= Seq::empty());
            }
            assert(views[6] == initial_steps()[6]) by {
                assert(steps@[6]@->Work_work_history =~= Seq::empty());
            }
            assert(views =~= initial_steps());
        }
        Steps { steps, current: 0 }
    }

    /// The name of the screen that is shown.
    pub fn title(&self) -> (title: String)
        requires
            self@.wf(),
        ensures
            title@ == self@.steps[self@.current as int].title(),
    {
        String::from_str(self.steps[self.current].title())
    }

    /// One screen on; at the last screen, nothing.
    pub fn advance(&mut self)
        requires
            old(self)@.wf(),
        ensures
            final(self)@ == old(self)@.after(Message::NextPressed),
            final(self)@.wf(),
    {
        if self.current < self.steps.len() - 1 {
            self.current = self.current + 1;
        }
    }

    /// One screen back.
    pub fn go_back(&mut self)
        requires
            old(self)@.wf(),
            old(self)@.current > 0,
        ensures
            final(self)@ == old(self)@.after(Message::BackPressed),
            final(self)@.wf(),
    {
        self.current = self.current - 1;
    }

    /// Whether there is a screen before the one shown.
    pub fn has_last(&self) -> (ok: bool)
        ensures
            ok == (self@.current > 0),
    {
        self.current > 0
    }

    /// Whether there is a screen behind the one shown.
    pub fn has_next(&self) -> (ok: bool)
        requires
            self@.wf(),
        ensures
            ok == (self@.current + 1 < self@.steps.len()),
    {
        self.current < self.steps.len() - 1
    }

    /// Whether the user may go on: there is a next screen, and the one
    /// shown is filled in.
    pub fn can_continue(&self) -> (ok: bool)
        requires
            self@.wf(),
        ensures
            ok == (self@.current + 1 < self@.steps.len() && self@.steps[self@.current as int].can_continue()),
    {
        self.has_next() && self.steps[self.current].can_continue()
    }

    /// Whether `msg` can come now.
    pub fn accepts(&self, msg: &Message) -> (ok: bool)
        requires
            self@.wf(),
        ensures
            ok == self@.accepts(*msg),
    {
        match msg {
            Message::BackPressed => self.current > 0,
            Message::NextPressed => true,
            _ => self.steps[self.current].accepts(msg),
        }
    }

    /// Takes `msg` into the screen that is shown.
    pub fn update(&mut self, msg: Message)
        requires
            old(self)@.wf(),
            old(self)@.steps[old(self)@.current as int].accepts(msg),
        ensures
            final(self)@.steps == old(self)@.steps.update(
                old(self)@.current as int,
                old(self)@.steps[old(self)@.current as int].after(msg),
            ),
            final(self)@.current == old(self)@.current,
            final(self)@.wf(),
    {
        let ghost before = step_views(self.steps@);
        let ghost at = self.current as int;
        self.steps[self.current].update(msg);
        assert(step_views(self.steps@) =~= before.update(at, before[at].after(msg)));
    }

    /// What the screens have collected, and the theme that was chosen.
    pub fn resume(&self) -> (gathered: (Resume, ThemeOption))
        ensures
            gathered.0@ == gather(self@.steps).resume,
            gathered.1 == gather(self@.steps).theme,
    {
        let mut resume = Resume {
            first_name: String::new(),
            last_name: String::new(),
            description: String::new(),
            contact_info: ContactInfo {
                email: None,
                phone: None,
                website: None,
                github: None,
                linkedin: None,
            },
            profession: String::new(),
            skills: Vec::new(),
            education: Vec::new(),
            work_experience: Vec::new(),
        };
        let mut theme = ThemeOption::Default;
        let ghost views = step_views(self.steps@);
        assert(views.take(0) =~= Seq::empty());
        assert(resume@.skills =~= Seq::empty());
        assert(resume@.education =~= Seq::empty());
        assert(resume@.work_experience =~= Seq::empty());
        let mut i: usize = 0;
        while i < self.steps.len()
            invariant
                i <= self.steps.len(),
                views == step_views(self.steps@),
                resume@ == gather(views.take(i as int)).resume,
                theme == gather(views.take(i as int)).theme,
            decreases self.steps.len() - i,
        {
            proof {
                assert(views.take(i + 1).drop_last() =~= views.take(i as int));
                assert(views.take(i + 1).last() == self.steps@[i as int]@);
            }
            match &self.steps[i] {
                Step::Name { first_name, last_name } => {
                    resume.first_name = first_name.clone();
                    resume.last_name = last_name.clone();
                },
                Step::Profession { text } => {
                    resume.profession = text.clone();
                },
                Step::Description { text } => {
                    resume.description = text.clone();
                },
                Step::Skills { skills, .. } => {
                    resume.skills = clone_skills(skills);
                },
                Step::Work { work_history, .. } => {
                    resume.work_experience = clone_work(work_history);
                },
                Step::Education { education_history, .. } => {
                    resume.education = clone_education(education_history);
                },
                Step::End { theme: chosen, .. } => {
                    theme = *chosen;
                },
                _ => {},
            }
            i += 1;
        }
        assert(views.take(i as int) =~= views);
        (resume, theme)
    }

    /// The page of what the screens have collected, in the chosen theme.
    pub fn to_resume(&self) -> (page: String)
        ensures
            page@ == self@.page(),
    {
        let (resume, theme) = self.resume();
        resume.generate().compile(&theme)
    }

    /// Takes a message from the front end: moves between the screens,
    /// or changes the one that is shown, and says what is to be saved.
    pub fn handle(&mut self, msg: Message) -> (action: Action)
        requires
            old(self)@.wf(),
            old(self)@.accepts(msg),
        ensures
            final(self)@ == old(self)@.after(msg),
            final(self)@.wf(),
            old(self)@.saves(msg) ==> {
                &&& action is Save
                &&& action->Save_path@ == old(self)@.steps[old(self)@.current as int]->End_save_file
                &&& action->Save_contents@ == old(self)@.page()
            },
            !old(self)@.saves(msg) ==> action == Action::Nothing,
    {
        match msg {
            Message::NextPressed => {
                self.advance();
                Action::Nothing
            },
            Message::BackPressed => {
                self.go_back();
                Action::Nothing
            },
            Message::SaveFile => {
                let action = match &self.steps[self.current] {
                    Step::End { save_file, .. } => Action::Save {
                        path: save_file.clone(),
                        contents: self.to_resume(),
                    },
                    _ => Action::Nothing,
                };
                assert(self@.steps.update(
                    self@.current as int,
                    self@.steps[self@.current as int].after(msg),
                ) =~= self@.steps);
                action
            },
            other => {
                self.update(other);
                Action::Nothing
            },
        }
    }
}

/// Where a screen offers to add, adding is accepted, and the screen's
/// list grows by one entry.
pub proof fn lemma_offered_add_is_accepted(step: StepView)
    requires
        step.can_add(),
    ensures
        step.accepts(Message::AddSkill),
        step.accepts(Message::AddEducation),
        step.accepts(Message::AddWork),
        step matches StepView::Skills { skills, .. } ==> step.after(
            Message::AddSkill,
        )->Skills_skills.len() == skills.len() + 1,
        step matches StepView::Education { education_history, .. } ==> step.after(
            Message::AddEducation,
        )->Education_education_history.len() == education_history.len() + 1,
        step matches StepView::Work { work_history, .. } ==> step.after(
            Message::AddWork,
        )->Work_work_history.len() == work_history.len() + 1,
{
}

/// A wizard that takes only messages that it accepts stays well formed,
/// and moving never leaves the screens.
pub proof fn lemma_after_keeps_wf(wizard: StepsView, msg: Message)
    requires
        wizard.wf(),
        wizard.accepts(msg),
    ensures
        wizard.after(msg).wf(),
        wizard.after(msg).steps.len() == wizard.steps.len(),
{
}

} // verus!
