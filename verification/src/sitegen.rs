//! The page shown by the security-awareness exercise: a mock sign-in form in
//! one of three colour themes, carrying a notice that it is a simulation.

use vstd::prelude::*;
use vstd::string::StringExecFns;

verus! {

/// Page text: everything up to the page title.
pub const PAGE_OPEN: &'static str = "<!DOCTYPE html>\n<html lang=\"en\">\n<head>\n    <meta charset=\"UTF-8\">\n    <title>";

/// Page text: from the title to the body background colour.
pub const AFTER_TITLE: &'static str = " - Security Training</title>\n    <style>\n        body {\n            background-color: ";

/// Page text: between the body background and text colours.
pub const BODY_COLOR: &'static str = ";\n            color: ";

/// Page text: from the body text colour to the box border colour.
pub const BODY_REST: &'static str = ";\n            font-family: 'Courier New', monospace;\n            display: flex;\n            align-items: center;\n            justify-content: center;\n            height: 100vh;\n            margin: 0;\n        }\n        .terminal-box {\n            border: 2px solid ";

/// Page text: from the box border colour to the box background.
pub const BOX_PADDING: &'static str = ";\n            padding: 40px;\n            border-radius: 10px;\n            width: 400px;\n            background: ";

/// Page text: between the box background and the box shadow colour.
pub const BOX_SHADOW: &'static str = ";\n            box-shadow: 0 0 20px ";

/// Page text: from the box shadow colour to the input background.
pub const BOX_REST: &'static str = ";\n            text-align: center;\n        }\n        input {\n            background: ";

/// Page text: between the input background and text colours.
pub const INPUT_COLOR: &'static str = ";\n            color: ";

/// Page text: between the input text colour and the input border colour.
pub const INPUT_BORDER: &'static str = ";\n            border: 1px solid ";

/// Page text: from the input border colour to the button background.
pub const INPUT_REST: &'static str = ";\n            padding: 10px;\n            margin: 10px 0;\n            width: 100%;\n        }\n        button {\n            background-color: ";

/// Page text: between the button background and text colours.
pub const BUTTON_COLOR: &'static str = ";\n            color: ";

/// Page text: from the button text colour to the logo.
pub const BUTTON_REST: &'static str = ";\n            padding: 10px;\n            border: none;\n            width: 100%;\n            margin-top: 10px;\n            font-weight: bold;\n        }\n        .warning {\n            margin-top: 20px;\n            font-size: 12px;\n            color: yellow;\n        }\n    </style>\n</head>\n<body>\n    <div class=\"terminal-box\">\n        ";

/// Page text: between the logo and the heading.
pub const BEFORE_HEADING: &'static str = "\n        <h2>";

/// Page text: between the heading and the line naming the business.
pub const AFTER_HEADING: &'static str = "</h2>\n        <p><i>(";

/// Page text: the form, the notice that the page is a simulation, and the end of the page.
pub const PAGE_CLOSE: &'static str = ")</i></p>\n        <form method=\"POST\" action=\"/login\">\n            <input type=\"text\" name=\"username\" placeholder=\"Username\" autocomplete=\"off\">\n            <input type=\"password\" name=\"password\" placeholder=\"Password\" autocomplete=\"off\">\n            <button type=\"submit\">ACCESS</button>\n        </form>\n        <div class=\"warning\">\n            \u{26a0}\u{fe0f} SECURITY TRAINING: This is a simulated login page for educational purposes only.\n            Do not enter real credentials.\n        </div>\n    </div>\n</body>\n</html>";

/// Opening of the logo image tag, up to the address.
pub const LOGO_OPEN: &'static str = "<img src=\"";

/// Rest of the logo image tag, after the address.
pub const LOGO_CLOSE: &'static str = "\" alt=\"logo\" style=\"width:80px;margin-bottom:20px;\">";

/// The four colours of a theme, as CSS colour values.
pub struct Palette {
    pub background: &'static str,
    pub text: &'static str,
    pub accent: &'static str,
    pub shadow: &'static str,
}

/// The names of the themes on offer, in the order in which they are listed.
pub open spec fn theme_name(index: int) -> Option<Seq<char>> {
    if index == 0 {
        Some("retro_green"@)
    } else if index == 1 {
        Some("blue_cyberpunk"@)
    } else if index == 2 {
        Some("amber_terminal"@)
    } else {
        None
    }
}

/// The colours of the named theme as (background, text, accent, shadow). Any
/// name other than `blue_cyberpunk` and `amber_terminal` gives the green theme.
pub open spec fn theme_colors(theme: Seq<char>) -> (Seq<char>, Seq<char>, Seq<char>, Seq<char>) {
    if theme == "blue_cyberpunk"@ {
        ("#0a0f2c"@, "#00ffff"@, "#00aaff"@, "#00f0ff"@)
    } else if theme == "amber_terminal"@ {
        ("#1b140b"@, "#ffbf00"@, "#ffcc00"@, "#ffea00"@)
    } else {
        ("#000000"@, "#00ff00"@, "#00dd00"@, "#00ff00"@)
    }
}

/// The image tag for a logo, or nothing when no logo is shown.
pub open spec fn logo_markup(logo_url: Seq<char>, shown: bool) -> Seq<char> {
    if shown {
        LOGO_OPEN@ + logo_url + LOGO_CLOSE@
    } else {
        Seq::<char>::empty()
    }
}

/// The whole page: the fixed text with the brand, the theme's colours, the
/// logo markup and the business name set into it. The texts are inserted as
/// given, without escaping.
pub open spec fn page_markup(
    brand: Seq<char>,
    business: Seq<char>,
    logo: Seq<char>,
    theme: Seq<char>,
) -> Seq<char> {
    let colors = theme_colors(theme);
    PAGE_OPEN@ + brand + AFTER_TITLE@ + colors.0 + BODY_COLOR@ + colors.1 + BODY_REST@ + colors.2 + BOX_PADDING@ + colors.0 + BOX_SHADOW@ + colors.3 + BOX_REST@ + colors.0 + INPUT_COLOR@ + colors.1 + INPUT_BORDER@ + colors.2 + INPUT_REST@ + colors.2 + BUTTON_COLOR@ + colors.0 + BUTTON_REST@ + logo + BEFORE_HEADING@ + brand + AFTER_HEADING@ + business + PAGE_CLOSE@
}

/// What `str::trim` makes of a text: the text without its leading and
/// trailing white space.
pub uninterp spec fn trimmed(s: Seq<char>) -> Seq<char>;

/// `str::trim` of the standard library. The result is named `trimmed`; nothing
/// more is claimed of it here.
#[verifier::external_body]
fn trim_text(s: &str) -> (t: &str)
    ensures
        t@ == trimmed(s@),
{
    s.trim()
}

/// Looks up the colours of a theme.
pub fn palette_for(theme: &str) -> (colors: Palette)
    ensures
        (colors.background@, colors.text@, colors.accent@, colors.shadow@) == theme_colors(theme@),
{
    let name: String = theme.to_owned();
    if name == "blue_cyberpunk".to_owned() {
        Palette { background: "#0a0f2c", text: "#00ffff", accent: "#00aaff", shadow: "#00f0ff" }
    } else if name == "amber_terminal".to_owned() {
        Palette { background: "#1b140b", text: "#ffbf00", accent: "#ffcc00", shadow: "#ffea00" }
    } else {
        Palette { background: "#000000", text: "#00ff00", accent: "#00dd00", shadow: "#00ff00" }
    }
}

/// The name of the theme listed at `index`, if there is one.
pub fn template_name(index: usize) -> (name: Option<&'static str>)
    ensures
        match name {
            Some(n) => theme_name(index as int) == Some(n@),
            None => theme_name(index as int) is None,
        },
{
    if index == 0 {
        Some("retro_green")
    } else if index == 1 {
        Some("blue_cyberpunk")
    } else if index == 2 {
        Some("amber_terminal")
    } else {
        None
    }
}

/// Builds the page with or without the logo image.
pub fn render_page(brand: &str, business: &str, logo_url: &str, theme: &str, show_logo: bool) -> (page:
    String)
    ensures
        page@ == page_markup(brand@, business@, logo_markup(logo_url@, show_logo), theme@),
{
    let colors: Palette = palette_for(theme);
    let mut logo: String = String::new();
    if show_logo {
        logo.append(LOGO_OPEN);
        logo.append(logo_url);
        logo.append(LOGO_CLOSE);
    }
    assert(logo@ =~= logo_markup(logo_url@, show_logo));
    let mut page: String = String::new();
    page.append(PAGE_OPEN);
    page.append(brand);
    page.append(AFTER_TITLE);
    page.append(colors.background);
    page.append(BODY_COLOR);
    page.append(colors.text);
    page.append(BODY_REST);
    page.append(colors.accent);
    page.append(BOX_PADDING);
    page.append(colors.background);
    page.append(BOX_SHADOW);
    page.append(colors.shadow);
    page.append(BOX_REST);
    page.append(colors.background);
    page.append(INPUT_COLOR);
    page.append(colors.text);
    page.append(INPUT_BORDER);
    page.append(colors.accent);
    page.append(INPUT_REST);
    page.append(colors.accent);
    page.append(BUTTON_COLOR);
    page.append(colors.background);
    page.append(BUTTON_REST);
    page.append(logo.as_str());
    page.append(BEFORE_HEADING);
    page.append(brand);
    page.append(AFTER_HEADING);
    page.append(business);
    page.append(PAGE_CLOSE);
    assert(page@ =~= page_markup(brand@, business@, logo@, theme@));
    page
}

/// Builds the page for a brand and a business in the named theme. The logo
/// image is included unless the address is empty or white space only.
pub fn generate_html(brand: &str, business: &str, logo_url: &str, theme: &str) -> (page: String)
    ensures
        page@ == page_markup(
            brand@,
            business@,
            logo_markup(logo_url@, trimmed(logo_url@).len() != 0),
            theme@,
        ),
{
    let show_logo: bool = !trim_text(logo_url).is_empty();
    render_page(brand, business, logo_url, theme, show_logo)
}

} // verus!
