//! The defaults of the fields of API metadata that a specification leaves out.

use vstd::prelude::*;
use crate::api::is_default_format_version;
use crate::version::Version;

verus! {

/// The default format version of a specification, `0.1.0`.
pub fn format_version() -> (r: Version)
    ensures
        is_default_format_version(r),
{
    Version::new(0, 1, 0)
}

/// The default name of an API.
pub open spec fn default_name() -> Seq<char> {
    "default-tide-disco-api"@
}

/// The default name of an API.
pub fn name() -> (r: String)
    ensures
        r@ == default_name(),
{
    "default-tide-disco-api".to_string()
}

/// The default description of an API.
pub open spec fn default_description() -> Seq<char> {
    "Default Tide Disco API"@
}

/// The default description of an API.
pub fn description() -> (r: String)
    ensures
        r@ == default_description(),
{
    "Default Tide Disco API".to_string()
}

/// The default HTML that opens the documentation of an API.
pub open spec fn default_html_top() -> Seq<char> {
    "
        <!DOCTYPE html>
        <html lang='en'>
          <head>
            <meta charset='utf-8'>
            <title>{{NAME}} Reference</title>
            <link rel='stylesheet' href='{{PUBLIC}}/css/style.css'>
            <script src='{{PUBLIC}}/js/script.js'></script>
            <link rel='icon' type='image/svg+xml'
             href='/public/favicon.svg'>
          </head>
          <body>
            <div><a href='/'><img src='{{PUBLIC}}/espressosys_logo.svg'
                      alt='Espresso Systems Logo'
                      /></a></div>
            <h1>{{NAME}} API {{VERSION}} Reference</h1>
            <p>{{SHORT_DESCRIPTION}}</p><br/>
            {{LONG_DESCRIPTION}}
        "@
}

/// The default HTML that opens the documentation of an API.
pub fn html_top() -> (r: String)
    ensures
        r@ == default_html_top(),
{
    "
        <!DOCTYPE html>
        <html lang='en'>
          <head>
            <meta charset='utf-8'>
            <title>{{NAME}} Reference</title>
            <link rel='stylesheet' href='{{PUBLIC}}/css/style.css'>
            <script src='{{PUBLIC}}/js/script.js'></script>
            <link rel='icon' type='image/svg+xml'
             href='/public/favicon.svg'>
          </head>
          <body>
            <div><a href='/'><img src='{{PUBLIC}}/espressosys_logo.svg'
                      alt='Espresso Systems Logo'
                      /></a></div>
            <h1>{{NAME}} API {{VERSION}} Reference</h1>
            <p>{{SHORT_DESCRIPTION}}</p><br/>
            {{LONG_DESCRIPTION}}
        ".to_string()
}

/// The default HTML that closes the documentation of an API.
pub open spec fn default_html_bottom() -> Seq<char> {
    "
            <h1>&nbsp;</h1>
            <p>Copyright © 2022 Espresso Systems. All rights reserved.</p>
          </body>
        </html>
        "@
}

/// The default HTML that closes the documentation of an API.
pub fn html_bottom() -> (r: String)
    ensures
        r@ == default_html_bottom(),
{
    "
            <h1>&nbsp;</h1>
            <p>Copyright © 2022 Espresso Systems. All rights reserved.</p>
          </body>
        </html>
        ".to_string()
}

/// The default heading of the documentation of a route.
pub open spec fn default_heading_entry() -> Seq<char> {
    "<a name='{{NAME}}'><h3 class='entry'><span class='meth'>{{METHOD}}</span> {{NAME}}</h3></a>\n"@
}

/// The default heading of the documentation of a route.
pub fn heading_entry() -> (r: String)
    ensures
        r@ == default_heading_entry(),
{
    "<a name='{{NAME}}'><h3 class='entry'><span class='meth'>{{METHOD}}</span> {{NAME}}</h3></a>\n".to_string()
}

/// The default heading of the list of the paths of a route.
pub open spec fn default_heading_routes() -> Seq<char> {
    "<h3>Routes</h3>\n"@
}

/// The default heading of the list of the paths of a route.
pub fn heading_routes() -> (r: String)
    ensures
        r@ == default_heading_routes(),
{
    "<h3>Routes</h3>\n".to_string()
}

/// The default heading of the parameters of a route.
pub open spec fn default_heading_parameters() -> Seq<char> {
    "<h3>Parameters</h3>\n"@
}

/// The default heading of the parameters of a route.
pub fn heading_parameters() -> (r: String)
    ensures
        r@ == default_heading_parameters(),
{
    "<h3>Parameters</h3>\n".to_string()
}

/// The default heading of the description of a route.
pub open spec fn default_heading_description() -> Seq<char> {
    "<h3>Description</h3>\n"@
}

/// The default heading of the description of a route.
pub fn heading_description() -> (r: String)
    ensures
        r@ == default_heading_description(),
{
    "<h3>Description</h3>\n".to_string()
}

/// The default HTML of one path of a route.
pub open spec fn default_route_path() -> Seq<char> {
    "<p class='path'>{{PATH}}</p>\n"@
}

/// The default HTML of one path of a route.
pub fn route_path() -> (r: String)
    ensures
        r@ == default_route_path(),
{
    "<p class='path'>{{PATH}}</p>\n".to_string()
}

/// The default HTML that opens the table of the parameters of a route.
pub open spec fn default_parameter_table_open() -> Seq<char> {
    "<table>\n"@
}

/// The default HTML that opens the table of the parameters of a route.
pub fn parameter_table_open() -> (r: String)
    ensures
        r@ == default_parameter_table_open(),
{
    "<table>\n".to_string()
}

/// The default HTML that closes the table of the parameters of a route.
pub open spec fn default_parameter_table_close() -> Seq<char> {
    "</table>\n\n"@
}

/// The default HTML that closes the table of the parameters of a route.
pub fn parameter_table_close() -> (r: String)
    ensures
        r@ == default_parameter_table_close(),
{
    "</table>\n\n".to_string()
}

/// The default HTML of one row of the table of the parameters of a route.
pub open spec fn default_parameter_row() -> Seq<char> {
    "<tr><td class='parameter'>{{NAME}}</td><td class='type'>{{TYPE}}</td></tr>\n"@
}

/// The default HTML of one row of the table of the parameters of a route.
pub fn parameter_row() -> (r: String)
    ensures
        r@ == default_parameter_row(),
{
    "<tr><td class='parameter'>{{NAME}}</td><td class='type'>{{TYPE}}</td></tr>\n".to_string()
}

/// The default HTML shown for a route that has no parameters.
pub open spec fn default_parameter_none() -> Seq<char> {
    "<div class='meta'>None</div>"@
}

/// The default HTML shown for a route that has no parameters.
pub fn parameter_none() -> (r: String)
    ensures
        r@ == default_parameter_none(),
{
    "<div class='meta'>None</div>".to_string()
}

} // verus!
