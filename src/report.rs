//! The HTML fragment that shows one card in the report.
use vstd::prelude::*;

verus! {

/// The fragment for one card: its image, a link to its catalog page under
/// its name, its description, and its market value.
pub open spec fn card_html_of(
    product_url: Seq<char>,
    product_name: Seq<char>,
    market_value: Seq<char>,
    image_b64: Seq<char>,
    product_description: Seq<char>,
) -> Seq<char> {
    "<div class=\"card\">\n            <img src=\"data:image/jpeg;base64,"@ + image_b64
        + "\" alt=\"card\" class=\"card-image\">\n            <div class=\"card-info\">\n                <a href="@
        + product_url + " target=\"_blank\"><div class=\"card-name\">"@ + product_name
        + "</div></a>\n                <div class=\"card-description\">"@ + product_description
        + "</div>\n                <div class=\"card-value\">Market Value: $"@ + market_value
        + "</div>\n            </div>\n        </div>"@
}

/// The report's fragment for one card.
pub fn generate_card(
    product_url: &str,
    product_name: &str,
    market_value: &str,
    image_b64: &str,
    product_description: &str,
) -> (r: String)
    ensures
        r@ == card_html_of(product_url@, product_name@, market_value@, image_b64@, product_description@),
{
    let mut r = String::from_str("<div class=\"card\">\n            <img src=\"data:image/jpeg;base64,");
    r.append(image_b64);
    r.append("\" alt=\"card\" class=\"card-image\">\n            <div class=\"card-info\">\n                <a href=");
    r.append(product_url);
    r.append(" target=\"_blank\"><div class=\"card-name\">");
    r.append(product_name);
    r.append("</div></a>\n                <div class=\"card-description\">");
    r.append(product_description);
    r.append("</div>\n                <div class=\"card-value\">Market Value: $");
    r.append(market_value);
    r.append("</div>\n            </div>\n        </div>");
    r
}

} // verus!
