use resume::{
    Color, CompileError, DefaultTheme, Direction, ForestTheme, HorizontalAlignment, Theme,
    VerticalAlignment, HTML,
};

const PAGE_HEAD: &str = "<!DOCTYPE html5><html><head><meta content=\"text/html;charset=utf-8\" http-equiv=\"Content-Type\"><meta content=\"utf-8\" http-equiv=\"encoding\"><link rel=\"stylesheet\" href=\"https://stackpath.bootstrapcdn.com/bootstrap/4.3.1/css/bootstrap.min.css\" integrity=\"sha384-ggOyR0iXCbMQv3Xipma34MD+dH/1fQ784/j6cY/iJTQUOhcWr7x9JvoRxT2MZw1T\" crossorigin=\"anonymous\"><script src=\"https://code.jquery.com/jquery-3.3.1.slim.min.js\" integrity=\"sha384-q8i/X+965DzO0rT7abK41JStQIAqVgRVzpbzo5smXKp4YfRvH+8abtTE1Pi6jizo\" crossorigin=\"anonymous\"></script><script src=\"https://cdnjs.cloudflare.com/ajax/libs/popper.js/1.14.7/umd/popper.min.js\" integrity=\"sha384-UO2eT0CpHqdSJQ6hJty5KVphtPhzWj9WO1clHTMGa3JDZwrnQq4sF86dIHNDz0W1\" crossorigin=\"anonymous\"></script><script src=\"https://stackpath.bootstrapcdn.com/bootstrap/4.3.1/js/bootstrap.min.js\" integrity=\"sha384-JjSmVgyd0p3pXB1rRibZUAYoIIy6OrQ6VrjIEaFf/nJGzIxFDsf4x0xIM+B07jRM\" crossorigin=\"anonymous\"></script><style>";

const CSS: &str = "\n@import url('https://fonts.googleapis.com/css2?family=Merriweather:wght@300&display=swap');\n// @import url('https://fonts.googleapis.com/css2?family=Roboto&display=swap');\n@import url('https://fonts.googleapis.com/css2?family=Roboto:ital@1&display=swap');\n* {\n    // font-family: 'Merriweather', serif;\n    font-family: 'Roboto', sans-serif;\n}\n";

fn count(haystack: &str, needle: &str) -> usize {
    haystack.matches(needle).count()
}

fn texts(labels: &[&str]) -> Vec<HTML> {
    labels.iter().map(|l| HTML::text(l)).collect()
}

#[test]
fn text_title_and_section_title() {
    assert_eq!(HTML::text("hello").compile(&DefaultTheme), "<p>hello</p>");
    assert_eq!(HTML::title("Ada").compile(&DefaultTheme), "<h1>Ada</h1>");
    assert_eq!(HTML::section_title("Skills").compile(&DefaultTheme), "<h4>Skills</h4>");
    assert_eq!(HTML::text("").compile(&DefaultTheme), "<p></p>");
}

#[test]
fn text_is_emitted_as_it_is() {
    assert_eq!(
        HTML::text("a < b & <b>c</b> \"d\"").compile(&DefaultTheme),
        "<p>a < b & <b>c</b> \"d\"</p>"
    );
    assert_eq!(
        HTML::link(HTML::text("x"), "https://e.org/?a=1&b=\"2\"").compile(&DefaultTheme),
        "<a href=\"https://e.org/?a=1&b=\"2\"\"><p>x</p></a>"
    );
}

#[test]
fn emphasis_and_link() {
    assert_eq!(HTML::italics(HTML::text("x")).compile(&DefaultTheme), "<i><p>x</p></i>");
    assert_eq!(HTML::bold(HTML::text("x")).compile(&DefaultTheme), "<b><p>x</p></b>");
    assert_eq!(
        HTML::link(HTML::bold(HTML::text("x")), "https://example.org").compile(&DefaultTheme),
        "<a href=\"https://example.org\"><b><p>x</p></b></a>"
    );
}

#[test]
fn colors_come_from_the_theme() {
    assert_eq!(
        HTML::fg(HTML::text("x"), Color::Red).compile(&DefaultTheme),
        "<div style=\"color: #ff0000;\"><p>x</p></div>"
    );
    assert_eq!(
        HTML::fg(HTML::text("x"), Color::Red).compile(&ForestTheme),
        "<div style=\"color: #ff5555;\"><p>x</p></div>"
    );
    assert_eq!(
        HTML::bg(HTML::text("x"), Color::Blue).compile(&DefaultTheme),
        "<div style=\"background-color: #0000ff;\"><p>x</p></div>"
    );
    assert_eq!(
        HTML::bg(HTML::text("x"), Color::Blue).compile(&ForestTheme),
        "<div style=\"background-color: #05386b;\"><p>x</p></div>"
    );
}

#[test]
fn rectangle() {
    assert_eq!(
        HTML::rect(HTML::text("x"), 25, Color::Orange).compile(&DefaultTheme),
        "<div style=\"height:100%; border-radius: 25%; background-color:#ffa500\"><p>x</p></div>"
    );
    assert_eq!(
        HTML::rect(HTML::text("x"), 0, Color::Black).compile(&DefaultTheme),
        "<div style=\"height:100%; border-radius: 0%; background-color:#000000\"><p>x</p></div>"
    );
}

#[test]
fn percent_bar_writes_the_number_as_given() {
    assert_eq!(
        HTML::PercentBar(75, String::from("Strong")).compile(&DefaultTheme),
        "<div class=\"progress\"><div class=\"progress-bar\" role=\"progressbar\" style=\"width:75%\"  aria-valuenow=\"75\" aria-valuemin=\"75\" aria-valuemax=\"100\">Strong</div></div>"
    );
    assert_eq!(
        HTML::PercentBar(0, String::new()).compile(&DefaultTheme),
        "<div class=\"progress\"><div class=\"progress-bar\" role=\"progressbar\" style=\"width:0%\"  aria-valuenow=\"0\" aria-valuemin=\"0\" aria-valuemax=\"100\"></div></div>"
    );
    assert_eq!(
        HTML::PercentBar(150, String::from("over")).compile(&DefaultTheme),
        "<div class=\"progress\"><div class=\"progress-bar\" role=\"progressbar\" style=\"width:150%\"  aria-valuenow=\"150\" aria-valuemin=\"150\" aria-valuemax=\"100\">over</div></div>"
    );
}

#[test]
fn aligned_maps_each_placement_to_its_rule() {
    let cases = [
        (HorizontalAlignment::Left, "justify-content: left;"),
        (HorizontalAlignment::Right, "justify-content: right;"),
        (HorizontalAlignment::Center, "justify-content: center;"),
        (HorizontalAlignment::SameAsParent, ""),
    ];
    let rows = [
        (VerticalAlignment::Top, "align-items: flex-start;"),
        (VerticalAlignment::Center, "align-items: center;"),
        (VerticalAlignment::Bottom, "align-items: flex-end;"),
        (VerticalAlignment::SameAsParent, ""),
    ];
    for (h, h_rule) in cases {
        for (v, v_rule) in rows {
            assert_eq!(
                HTML::aligned(HTML::text("x"), h, v).compile(&DefaultTheme),
                format!(
                    "<div style=\"height:100%; width:100%; display: flex; flex-grow: 1; {}{}\"><p>x</p></div>",
                    h_rule, v_rule
                )
            );
        }
    }
}

#[test]
fn section_is_drawn_by_the_theme() {
    assert_eq!(
        HTML::section(HTML::text("x")).compile(&DefaultTheme),
        "<div class=\"card\" style=\"height:100%; width:100%;\"><div class=\"card-body\" style=\"height:100%; width:100%;\"><p>x</p></div></div>"
    );
    assert_eq!(
        HTML::section(HTML::text("x")).compile(&DefaultTheme),
        DefaultTheme.compile_section_html(HTML::text("x").compile(&DefaultTheme))
    );
}

#[test]
fn container_joins_children_with_line_breaks() {
    assert_eq!(
        HTML::container(texts(&["a", "b", "c"])).compile(&DefaultTheme),
        "<div class=\"container\"><p>a</p>\n<p>b</p>\n<p>c</p></div>"
    );
    assert_eq!(
        HTML::container(vec![]).compile(&DefaultTheme),
        "<div class=\"container\"></div>"
    );
    assert_eq!(
        HTML::container(texts(&["a"])).compile(&DefaultTheme),
        "<div class=\"container\"><p>a</p></div>"
    );
}

#[test]
fn ordered_list_has_one_item_per_child_in_order() {
    assert_eq!(
        HTML::ol(texts(&["a", "b", "c"])).compile(&DefaultTheme),
        "<ol style=\"width:100%\"><li><p>a</p></li>\n<li><p>b</p></li>\n<li><p>c</p></li></ol>"
    );
    assert_eq!(HTML::ol(vec![]).compile(&DefaultTheme), "<ol style=\"width:100%\"></ol>");
}

#[test]
fn unordered_list_has_one_item_per_child_in_order() {
    assert_eq!(
        HTML::ul(texts(&["a", "b"])).compile(&DefaultTheme),
        "<ul style=\"width:100%\"><li><p>a</p></li>\n<li><p>b</p></li></ul>"
    );
    assert_eq!(
        HTML::ul(texts(&["only"])).compile(&DefaultTheme),
        "<ul style=\"width:100%\"><li><p>only</p></li></ul>"
    );
}

#[test]
fn a_list_of_n_children_has_n_items() {
    for n in 0usize..12 {
        let labels: Vec<String> = (0..n).map(|i| format!("item {}", i)).collect();
        let items: Vec<HTML> = labels.iter().map(|l| HTML::text(l)).collect();
        let out = HTML::ol(items).compile(&DefaultTheme);
        assert_eq!(count(&out, "<li>"), n);
        assert_eq!(count(&out, "</li>"), n);
        let mut from = 0;
        for l in &labels {
            let piece = format!("<li><p>{}</p></li>", l);
            let at = out[from..].find(&piece);
            assert!(at.is_some());
            from += at.unwrap() + piece.len();
        }
    }
}

#[test]
fn row_wraps_each_child_in_a_column_cell() {
    assert_eq!(
        HTML::row(texts(&["a", "b"])).compile(&DefaultTheme),
        "<div class=\"row no-gutters\"><div class=\"col no-gutters\"><p>a</p></div>\n<div class=\"col no-gutters\"><p>b</p></div></div>"
    );
    assert_eq!(
        HTML::row(vec![]).compile(&DefaultTheme),
        "<div class=\"row no-gutters\"></div>"
    );
}

#[test]
fn column_wraps_each_child_in_a_row_cell() {
    assert_eq!(
        HTML::col(texts(&["a", "b"])).compile(&DefaultTheme),
        "<div class=\"col no-gutters\"><div class=\"row no-gutters\"><p>a</p></div>\n<div class=\"row no-gutters\"><p>b</p></div></div>"
    );
}

#[test]
fn a_row_of_n_children_has_n_cells_around_their_own_markup() {
    let children = vec![
        HTML::bold(HTML::text("a")),
        HTML::ul(texts(&["b", "c"])),
        HTML::PercentBar(50, String::from("Some")),
    ];
    let alone: Vec<String> = children.iter().map(|c| c.compile(&ForestTheme)).collect();
    let out = HTML::row(children).compile(&ForestTheme);
    let cells: Vec<String> = alone
        .iter()
        .map(|m| format!("<div class=\"col no-gutters\">{}</div>", m))
        .collect();
    assert_eq!(out, format!("<div class=\"row no-gutters\">{}</div>", cells.join("\n")));
    assert_eq!(count(&out, "<div class=\"col no-gutters\">"), 3);
}

#[test]
fn document_is_the_fixed_page_around_its_children() {
    let out = HTML::html(texts(&["a", "b"])).compile(&DefaultTheme);
    let expected = format!(
        "{}{}\nbody, div {{ color: {}; background-color: {}; }}</style></head><body><br><br><br><br><br><br>{}<br><br><br><br><br><br></body></html>",
        PAGE_HEAD, CSS, "#000000", "#ffffff", "<p>a</p>\n<p>b</p>"
    );
    assert_eq!(out, expected);
}

#[test]
fn document_takes_its_default_colors_from_the_theme() {
    let out = HTML::html(vec![]).compile(&ForestTheme);
    let expected = format!(
        "{}{}\nbody, div {{ color: #edf5e1; background-color: #05386b; }}</style></head><body><br><br><br><br><br><br><br><br><br><br><br><br></body></html>",
        PAGE_HEAD, CSS
    );
    assert_eq!(out, expected);
}

#[test]
fn nested_tree() {
    let tree = HTML::container(vec![HTML::col(vec![
        HTML::row(vec![HTML::title("T"), HTML::italics(HTML::section_title("S"))]),
        HTML::ol(vec![HTML::ul(texts(&["x"]))]),
    ])]);
    assert_eq!(
        tree.compile(&DefaultTheme),
        "<div class=\"container\"><div class=\"col no-gutters\"><div class=\"row no-gutters\"><div class=\"row no-gutters\"><div class=\"col no-gutters\"><h1>T</h1></div>\n<div class=\"col no-gutters\"><i><h4>S</h4></i></div></div></div>\n<div class=\"row no-gutters\"><ol style=\"width:100%\"><li><ul style=\"width:100%\"><li><p>x</p></li></ul></li></ol></div></div></div>"
    );
}

#[test]
fn compiling_twice_gives_the_same_text() {
    let build = || {
        HTML::html(vec![HTML::container(vec![
            HTML::fg(HTML::title("A"), Color::Green),
            HTML::rect(HTML::ol(texts(&["1", "2"])), 10, Color::Grey),
        ])])
    };
    let a = build();
    let b = build();
    assert_eq!(a, b);
    assert_eq!(a.compile(&ForestTheme), a.compile(&ForestTheme));
    assert_eq!(a.compile(&ForestTheme), b.compile(&ForestTheme));
    assert_eq!(a.try_compile(&ForestTheme), b.try_compile(&ForestTheme));
}

#[test]
fn try_compile_agrees_with_compile() {
    let tree = HTML::row(texts(&["a", "b"]));
    assert!(tree.is_supported());
    assert_eq!(tree.try_compile(&DefaultTheme), Ok(tree.compile(&DefaultTheme)));
}

#[test]
fn fade_in_is_unsupported_at_the_root() {
    for d in [Direction::Left, Direction::Right, Direction::Up, Direction::Down] {
        let tree = HTML::FadeIn(d);
        assert!(!tree.is_supported());
        assert_eq!(tree.try_compile(&DefaultTheme), Err(CompileError::UnsupportedNode));
    }
}

#[test]
fn fade_in_is_unsupported_wherever_it_stands() {
    let wrappers: Vec<fn(HTML) -> HTML> = vec![
        |n| HTML::html(vec![HTML::text("a"), n]),
        |n| HTML::container(vec![n, HTML::text("a")]),
        |n| HTML::row(vec![HTML::text("a"), n, HTML::text("b")]),
        |n| HTML::col(vec![n]),
        |n| HTML::ol(vec![HTML::text("a"), HTML::text("b"), n]),
        |n| HTML::ul(vec![n]),
        |n| HTML::aligned(n, HorizontalAlignment::Center, VerticalAlignment::Top),
        |n| HTML::rect(n, 5, Color::Red),
        |n| HTML::section(n),
        |n| HTML::italics(n),
        |n| HTML::bold(n),
        |n| HTML::link(n, "u"),
        |n| HTML::fg(n, Color::Red),
        |n| HTML::bg(n, Color::Red),
    ];
    for outer in &wrappers {
        let tree = outer(HTML::FadeIn(Direction::Up));
        assert!(!tree.is_supported());
        assert_eq!(tree.try_compile(&DefaultTheme), Err(CompileError::UnsupportedNode));
        for outermost in &wrappers {
            let deep = outermost(outer(HTML::FadeIn(Direction::Down)));
            assert!(!deep.is_supported());
            assert_eq!(deep.try_compile(&ForestTheme), Err(CompileError::UnsupportedNode));
            let sound = outermost(outer(HTML::text("x")));
            assert!(sound.is_supported());
            assert!(sound.try_compile(&ForestTheme).is_ok());
        }
    }
}

#[test]
fn a_string_becomes_a_paragraph() {
    assert_eq!(HTML::from(String::from("x")), HTML::Text(String::from("x")));
    assert_eq!(HTML::from(String::from("x")).compile(&DefaultTheme), "<p>x</p>");
}

#[test]
fn a_clone_is_the_same_tree() {
    let tree = HTML::html(vec![HTML::container(vec![
        HTML::fg(HTML::title("A"), Color::Green),
        HTML::link(HTML::ol(texts(&["1", "2"])), "u"),
        HTML::PercentBar(3, String::from("l")),
        HTML::FadeIn(Direction::Left),
    ])]);
    assert_eq!(tree.clone(), tree);
}

struct Mono;

impl Theme for Mono {
    fn get_color_rgb(&self, _color: Color) -> (u8, u8, u8) {
        (1, 2, 3)
    }

    fn get_document_css(&self) -> String {
        String::from("p { margin: 0; }")
    }

    fn compile_section_html(&self, content: String) -> String {
        format!("<section>{}</section>", content)
    }
}

#[test]
fn a_theme_of_ones_own() {
    assert_eq!(Mono.get_color_hex(Color::Pink), "#010203");
    assert_eq!(
        HTML::section(HTML::fg(HTML::text("x"), Color::Blue)).compile(&Mono),
        "<section><div style=\"color: #010203;\"><p>x</p></div></section>"
    );
    let out = HTML::html(vec![HTML::text("x")]).compile(&Mono);
    assert_eq!(
        out,
        format!(
            "{}p {{ margin: 0; }}\nbody, div {{ color: #010203; background-color: #010203; }}</style></head><body><br><br><br><br><br><br><p>x</p><br><br><br><br><br><br></body></html>",
            PAGE_HEAD
        )
    );
    let dynamic: &dyn Theme = &Mono;
    assert_eq!(HTML::text("x").compile(dynamic), "<p>x</p>");
}

#[test]
fn a_checked_bar_takes_at_most_a_hundred() {
    assert_eq!(HTML::percent_bar(0, "l"), Some(HTML::PercentBar(0, String::from("l"))));
    assert_eq!(HTML::percent_bar(100, "l"), Some(HTML::PercentBar(100, String::from("l"))));
    assert_eq!(HTML::percent_bar(101, "l"), None);
    assert_eq!(HTML::percent_bar(4294967295, ""), None);
}

#[test]
fn escaped_text_is_shown_as_written() {
    assert_eq!(
        HTML::escaped_text("<script>alert(\"x\")</script>").compile(&DefaultTheme),
        "<p>&lt;script&gt;alert(&quot;x&quot;)&lt;/script&gt;</p>"
    );
    assert_eq!(HTML::escaped_text("plain"), HTML::text("plain"));
}
