use resume::text::parse_u32;
use resume::{
    Action, ContactInfo, Degree, DraculaTheme, Education, Message, Proficiency, Resume, Step,
    Steps, ThemeOption, Work,
};

fn text(s: &str) -> String {
    String::from(s)
}

fn send(wizard: &mut Steps, msg: Message) -> Action {
    assert!(wizard.accepts(&msg));
    wizard.handle(msg)
}

fn filled() -> Steps {
    let mut w = Steps::new();
    send(&mut w, Message::NextPressed);
    send(&mut w, Message::FirstNameChanged(text("Ada")));
    send(&mut w, Message::LastNameChanged(text("Lovelace")));
    send(&mut w, Message::NextPressed);
    send(&mut w, Message::DescriptionChanged(text("Mathematician")));
    send(&mut w, Message::NextPressed);
    send(&mut w, Message::DescriptionChanged(text("Notes on the Analytical Engine.")));
    send(&mut w, Message::NextPressed);
    send(&mut w, Message::DescriptionChanged(text("Analysis")));
    send(&mut w, Message::ProficiencySelected(Proficiency::Strong));
    send(&mut w, Message::AddSkill);
    send(&mut w, Message::NextPressed);
    send(&mut w, Message::CompanyChanged(text("Royal Institution")));
    send(&mut w, Message::StartYearChanged(text("1840")));
    send(&mut w, Message::EndYearChanged(text("1843")));
    send(&mut w, Message::AddEducation);
    send(&mut w, Message::NextPressed);
    send(&mut w, Message::PositionChanged(text("Analyst")));
    send(&mut w, Message::CompanyChanged(text("Computing Engine Co")));
    send(&mut w, Message::DescriptionChanged(text("Wrote the first algorithm.")));
    send(&mut w, Message::StartYearChanged(text("1842")));
    send(&mut w, Message::EndYearChanged(text("1843")));
    send(&mut w, Message::AddWork);
    send(&mut w, Message::NextPressed);
    w
}

fn ada() -> Resume {
    Resume {
        first_name: text("Ada"),
        last_name: text("Lovelace"),
        description: text("Notes on the Analytical Engine."),
        contact_info: ContactInfo {
            email: None,
            phone: None,
            website: None,
            github: None,
            linkedin: None,
        },
        profession: text("Mathematician"),
        skills: vec![(text("Analysis"), Some(Proficiency::Strong))],
        education: vec![Education {
            start_year: 1840,
            end_year: 1843,
            school: text("Royal Institution"),
            field: None,
            degree: Degree::NoDegree,
        }],
        work_experience: vec![Work {
            start_year: 1842,
            end_year: 1843,
            position: text("Analyst"),
            company: text("Computing Engine Co"),
            description: text("Wrote the first algorithm."),
        }],
    }
}

#[test]
fn numbers_that_parse() {
    assert_eq!(parse_u32("0"), Some(0));
    assert_eq!(parse_u32("7"), Some(7));
    assert_eq!(parse_u32("2020"), Some(2020));
    assert_eq!(parse_u32("+5"), Some(5));
    assert_eq!(parse_u32("007"), Some(7));
    assert_eq!(parse_u32("4294967295"), Some(4294967295));
    assert_eq!(parse_u32("0000000000004294967295"), Some(4294967295));
}

#[test]
fn numbers_that_do_not_parse() {
    assert_eq!(parse_u32(""), None);
    assert_eq!(parse_u32("+"), None);
    assert_eq!(parse_u32("-5"), None);
    assert_eq!(parse_u32("++5"), None);
    assert_eq!(parse_u32("5+"), None);
    assert_eq!(parse_u32(" 5"), None);
    assert_eq!(parse_u32("5 "), None);
    assert_eq!(parse_u32("12a"), None);
    assert_eq!(parse_u32("a12"), None);
    assert_eq!(parse_u32("1.5"), None);
    assert_eq!(parse_u32("4294967296"), None);
    assert_eq!(parse_u32("99999999999999999999999999"), None);
    assert_eq!(parse_u32("\u{ff11}\u{ff12}"), None);
    assert_eq!(parse_u32("12\u{e9}"), None);
}

#[test]
fn parsing_agrees_with_std() {
    for s in [
        "", "+", "-", "0", "+0", "-0", "1", "10", "0010", "65535", "4294967294", "4294967295",
        "4294967296", "42949672950", "+4294967295", "+4294967296", "1e3", "0x10", "1_000",
        " 1", "1\n", "\u{661}", "9\u{0}",
    ] {
        assert_eq!(parse_u32(s), s.parse::<u32>().ok());
    }
}

#[test]
fn a_new_wizard() {
    let w = Steps::new();
    assert_eq!(w.current, 0);
    assert_eq!(w.steps.len(), 8);
    let titles: Vec<&str> = w.steps.iter().map(|s| s.title()).collect();
    assert_eq!(
        titles,
        vec!["Welcome", "Name", "Profession", "Description", "Skills", "Education", "Work", "End"]
    );
    assert_eq!(w.title(), "Welcome");
    assert!(!w.has_last());
    assert!(w.has_next());
    assert!(w.can_continue());
    assert!(matches!(
        &w.steps[7],
        Step::End { theme: ThemeOption::Default, save_file } if save_file == "resume.html"
    ));
}

#[test]
fn screen_titles() {
    let info = ContactInfo { email: None, phone: None, website: None, github: None, linkedin: None };
    assert_eq!(Step::ContactInfo { info }.title(), "Contact Information");
    assert_eq!(Step::Welcome.title(), "Welcome");
}

#[test]
fn going_on_needs_the_screen_filled_in() {
    let mut w = Steps::new();
    send(&mut w, Message::NextPressed);
    assert_eq!(w.title(), "Name");
    assert!(!w.can_continue());
    send(&mut w, Message::FirstNameChanged(text("Ada")));
    assert!(!w.can_continue());
    send(&mut w, Message::LastNameChanged(text("Lovelace")));
    assert!(w.can_continue());
    send(&mut w, Message::FirstNameChanged(text("")));
    assert!(!w.can_continue());
    send(&mut w, Message::NextPressed);
    assert_eq!(w.title(), "Profession");
    assert!(!w.can_continue());
    send(&mut w, Message::DescriptionChanged(text("x")));
    assert!(w.can_continue());
    send(&mut w, Message::NextPressed);
    assert_eq!(w.title(), "Description");
    assert!(!w.can_continue());
    send(&mut w, Message::DescriptionChanged(text("y")));
    assert!(w.can_continue());
    for expected in ["Skills", "Education", "Work"] {
        send(&mut w, Message::NextPressed);
        assert_eq!(w.title(), expected);
        assert!(w.can_continue());
    }
    send(&mut w, Message::NextPressed);
    assert_eq!(w.title(), "End");
    assert!(!w.can_continue());
    assert!(!w.has_next());
    assert!(w.has_last());
}

#[test]
fn moving_between_the_screens() {
    let mut w = Steps::new();
    assert!(!w.accepts(&Message::BackPressed));
    w.advance();
    assert_eq!(w.current, 1);
    assert!(w.accepts(&Message::BackPressed));
    w.go_back();
    assert_eq!(w.current, 0);
    for _ in 0..20 {
        w.advance();
    }
    assert_eq!(w.current, 7);
    assert_eq!(send(&mut w, Message::NextPressed), Action::Nothing);
    assert_eq!(w.current, 7);
    assert_eq!(send(&mut w, Message::BackPressed), Action::Nothing);
    assert_eq!(w.current, 6);
}

#[test]
fn messages_that_do_not_fit_the_screen() {
    let w = Steps::new();
    assert!(!w.accepts(&Message::StartYearChanged(text("1"))));
    assert!(!w.accepts(&Message::EndYearChanged(text("1"))));
    assert!(!w.accepts(&Message::PositionChanged(text("1"))));
    assert!(!w.accepts(&Message::CompanyChanged(text("1"))));
    assert!(!w.accepts(&Message::DescriptionChanged(text("1"))));
    assert!(!w.accepts(&Message::Clear));
    assert!(w.accepts(&Message::FirstNameChanged(text("1"))));
    assert!(w.accepts(&Message::AddEducation));
    assert!(w.accepts(&Message::AddWork));
    assert!(w.accepts(&Message::AddSkill));
    assert!(w.accepts(&Message::SaveFile));
}

#[test]
fn a_message_for_another_screen_changes_nothing() {
    let mut w = Steps::new();
    for msg in [
        Message::FirstNameChanged(text("x")),
        Message::LastNameChanged(text("x")),
        Message::DegreeSelected(Degree::PhD),
        Message::ProficiencySelected(Proficiency::Expert),
        Message::ThemeSelected(ThemeOption::Forest),
        Message::SaveFileChanged(text("x")),
        Message::AddSkill,
        Message::AddEducation,
        Message::AddWork,
        Message::SaveFile,
    ] {
        assert_eq!(send(&mut w, msg), Action::Nothing);
    }
    assert_eq!(format!("{:?}", w), format!("{:?}", Steps::new()));
}

#[test]
fn adding_a_skill_empties_the_fields() {
    let mut s = Step::Skills { skills: vec![], selection: None, text: String::new() };
    s.update(Message::DescriptionChanged(text("Chess")));
    s.update(Message::AddSkill);
    s.update(Message::DescriptionChanged(text("Code")));
    s.update(Message::ProficiencySelected(Proficiency::Barely));
    s.update(Message::ProficiencySelected(Proficiency::Somewhat));
    s.update(Message::AddSkill);
    match &s {
        Step::Skills { skills, selection, text } => {
            assert_eq!(
                skills,
                &vec![(String::from("Chess"), None), (String::from("Code"), Some(Proficiency::Somewhat))]
            );
            assert_eq!(*selection, None);
            assert_eq!(text, "");
        }
        _ => panic!("another screen"),
    }
    s.update(Message::DescriptionChanged(text("left over")));
    s.update(Message::Clear);
    assert!(matches!(
        &s,
        Step::Skills { skills, selection: None, text } if skills.is_empty() && text.is_empty()
    ));
}

#[test]
fn adding_education_needs_two_years() {
    let mut s = Step::Education {
        education_history: vec![],
        degree: None,
        field: String::new(),
        start_year: String::new(),
        end_year: String::new(),
        school: String::new(),
    };
    assert!(!s.accepts(&Message::AddEducation));
    s.update(Message::StartYearChanged(text("2019")));
    assert!(!s.accepts(&Message::AddEducation));
    s.update(Message::EndYearChanged(text("soon")));
    assert!(!s.accepts(&Message::AddEducation));
    s.update(Message::EndYearChanged(text("2023")));
    assert!(s.accepts(&Message::AddEducation));
    s.update(Message::CompanyChanged(text("University of Tennessee")));
    s.update(Message::PositionChanged(text("Computer Science")));
    s.update(Message::DegreeSelected(Degree::Bachelors));
    s.update(Message::AddEducation);
    s.update(Message::StartYearChanged(text("2016")));
    s.update(Message::EndYearChanged(text("2020")));
    s.update(Message::CompanyChanged(text("South Doyle High School")));
    s.update(Message::AddEducation);
    match &s {
        Step::Education { education_history, degree, field, start_year, end_year, school } => {
            assert_eq!(
                education_history,
                &vec![
                    Education {
                        start_year: 2019,
                        end_year: 2023,
                        school: text("University of Tennessee"),
                        field: Some(text("Computer Science")),
                        degree: Degree::Bachelors,
                    },
                    Education {
                        start_year: 2016,
                        end_year: 2020,
                        school: text("South Doyle High School"),
                        field: None,
                        degree: Degree::NoDegree,
                    },
                ]
            );
            assert_eq!(*degree, None);
            assert!(field.is_empty() && start_year.is_empty());
            assert!(end_year.is_empty() && school.is_empty());
        }
        _ => panic!("another screen"),
    }
    s.update(Message::Clear);
    assert!(matches!(&s, Step::Education { education_history, .. } if education_history.is_empty()));
}

#[test]
fn adding_work_needs_two_years() {
    let mut s = Step::Work {
        work_history: vec![],
        start_year: text("2018"),
        end_year: text("-1"),
        position: text("P"),
        company: text("C"),
        description: text("D"),
    };
    assert!(!s.accepts(&Message::AddWork));
    s.update(Message::EndYearChanged(text("2019")));
    assert!(s.accepts(&Message::AddWork));
    s.update(Message::AddWork);
    match &s {
        Step::Work { work_history, start_year, end_year, position, company, description } => {
            assert_eq!(
                work_history,
                &vec![Work {
                    start_year: 2018,
                    end_year: 2019,
                    position: text("P"),
                    company: text("C"),
                    description: text("D"),
                }]
            );
            assert!(start_year.is_empty() && end_year.is_empty());
            assert!(position.is_empty() && company.is_empty() && description.is_empty());
        }
        _ => panic!("another screen"),
    }
    s.update(Message::Clear);
    assert!(matches!(&s, Step::Work { work_history, .. } if work_history.is_empty()));
}

#[test]
fn contacts_are_kept_on_their_screen() {
    let none = ContactInfo { email: None, phone: None, website: None, github: None, linkedin: None };
    let mut s = Step::ContactInfo { info: none.clone() };
    let given = ContactInfo { email: Some(text("a@b.c")), ..none };
    s.update(Message::ContactsChanged(given.clone()));
    assert!(matches!(&s, Step::ContactInfo { info } if *info == given));
    assert!(s.can_continue());
}

#[test]
fn the_wizard_collects_the_resume() {
    let w = filled();
    let (resume, theme) = w.resume();
    assert_eq!(resume, ada());
    assert_eq!(theme, ThemeOption::Default);
    assert_eq!(w.to_resume(), ada().generate().compile(&ThemeOption::Default));
}

#[test]
fn saving_hands_out_the_page_in_the_chosen_theme() {
    let mut w = filled();
    assert_eq!(w.title(), "End");
    send(&mut w, Message::ThemeSelected(ThemeOption::Dracula));
    send(&mut w, Message::SaveFileChanged(text("ada.html")));
    let before = format!("{:?}", w);
    let action = send(&mut w, Message::SaveFile);
    assert_eq!(
        action,
        Action::Save { path: text("ada.html"), contents: ada().generate().compile(&DraculaTheme) }
    );
    assert_eq!(format!("{:?}", w), before);
    send(&mut w, Message::BackPressed);
    assert_eq!(send(&mut w, Message::SaveFile), Action::Nothing);
}

#[test]
fn an_empty_wizard_gives_an_empty_resume() {
    let (resume, theme) = Steps::new().resume();
    assert_eq!(resume.first_name, "");
    assert_eq!(resume.profession, "");
    assert!(resume.skills.is_empty() && resume.education.is_empty());
    assert!(resume.work_experience.is_empty());
    assert_eq!(theme, ThemeOption::Default);
}

#[test]
fn copies_are_equal() {
    let r = ada();
    assert_eq!(r.clone(), r);
    assert_eq!(r.education[0].clone(), r.education[0]);
    assert_eq!(r.work_experience[0].clone(), r.work_experience[0]);
    assert_eq!(Degree::Other(text("x")).clone(), Degree::Other(text("x")));
    let c = ContactInfo {
        email: Some(text("e")),
        phone: None,
        website: Some(text("w")),
        github: None,
        linkedin: Some(text("l")),
    };
    assert_eq!(c.clone(), c);
}

#[test]
fn adding_is_offered_when_the_fields_are_filled() {
    let mut skills = Step::Skills { skills: vec![], selection: None, text: String::new() };
    assert!(!skills.can_add());
    skills.update(Message::DescriptionChanged(text("Chess")));
    assert!(skills.can_add());

    let mut education = Step::Education {
        education_history: vec![],
        degree: None,
        field: String::new(),
        start_year: text("2019"),
        end_year: text("2023"),
        school: String::new(),
    };
    assert!(!education.can_add());
    education.update(Message::CompanyChanged(text("School")));
    assert!(education.can_add());
    assert!(education.accepts(&Message::AddEducation));
    education.update(Message::EndYearChanged(text("20x3")));
    assert!(!education.can_add());

    let mut work = Step::Work {
        work_history: vec![],
        start_year: text("2018"),
        end_year: text("2019"),
        position: text("P"),
        company: text("C"),
        description: String::new(),
    };
    assert!(!work.can_add());
    work.update(Message::DescriptionChanged(text("D")));
    assert!(work.can_add());
    assert!(work.accepts(&Message::AddWork));
    work.update(Message::PositionChanged(text("")));
    assert!(!work.can_add());

    assert!(!Step::Welcome.can_add());
    assert!(!Step::End { theme: ThemeOption::Forest, save_file: text("f") }.can_add());
}
