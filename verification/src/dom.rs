//! The one browser-facing entry of the library: injecting prepared HTML
//! into a named element of the page. The three DOM handle types and the
//! calls on them are trusted declarations over `web_sys`; everything they
//! touch is opaque to the verifier and carried straight through.

use vstd::prelude::*;

verus! {

#[verifier::external_type_specification]
#[verifier::external_body]
pub struct ExWindow(web_sys::Window);

#[verifier::external_type_specification]
#[verifier::external_body]
pub struct ExDocument(web_sys::Document);

#[verifier::external_type_specification]
#[verifier::external_body]
pub struct ExElement(web_sys::Element);

/// Relies on `web_sys::window`: the global window object of the page the
/// code runs in, or `None` outside a browser. Callable only on a
/// wasm target; elsewhere the binding itself panics.
#[verifier::external_body]
fn dom_window() -> Option<web_sys::Window> {
    web_sys::window()
}

/// Relies on `web_sys::Window::document`: the document shown in the
/// window, or `None` when it has none.
#[verifier::external_body]
fn window_document(window: &web_sys::Window) -> Option<web_sys::Document> {
    window.document()
}

/// Relies on `web_sys::Document::get_element_by_id`: the element whose id
/// attribute equals `element_id`, or `None` when the document has none.
#[verifier::external_body]
fn document_get_element_by_id(
    document: &web_sys::Document,
    element_id: &str,
) -> Option<web_sys::Element> {
    document.get_element_by_id(element_id)
}

/// Relies on `web_sys::Element::set_inner_html`: replaces the element's
/// descendants with the parse of the given HTML.
#[verifier::external_body]
fn element_set_inner_html(element: &web_sys::Element, html: &str) {
    element.set_inner_html(html)
}

/// Replace the contents of the element with the given id by the given HTML.
/// The HTML must already be correctly encoded: it is handed to the browser
/// as markup, so text from an untrusted source must never be passed here.
/// In an environment where the window, the document or the element cannot
/// be reached, the page is left unchanged.
pub fn set_html_element_inner_html(element_id: &str, inner_html: &str) {
    if let Some(window) = dom_window() {
        if let Some(document) = window_document(&window) {
            if let Some(element) = document_get_element_by_id(&document, element_id) {
                element_set_inner_html(&element, inner_html);
            }
        }
    }
}

} // verus!
