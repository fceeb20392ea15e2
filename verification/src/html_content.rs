//! The pages that bring a browser to the server: a document, its style sheet
//! and the script that opens the session. The document names the transport's
//! port, and the script pins the serving certificate by its digest; both are
//! written in as placeholders here.

use crate::text::{clear_of, free_of, lemma_free_is_clear, occurs_at};
use vstd::prelude::*;

verus! {

/// The document. `${WEBTRANSPORT_PORT}` stands for the transport's port.
pub const INDEX_HTML: &'static str = r#"
<!DOCTYPE html>
<html lang="en">
<head>
    <meta charset="UTF-8">
    <title>Video Streaming - WebTransport</title>
    <link rel="stylesheet" href="style.css">
    <script src="client.js"></script>
</head>
<body>
    <h1> Video Streaming - WebTransport Demo</h1>

    <div class="section">
        <h2>1. Establish Connection</h2>
        <div class="input-line">
            <label for="url">Server URL:</label>
            <input type="text" id="url" value="https://localhost:${WEBTRANSPORT_PORT}/">
            <button id="connect" onclick="connect()">Connect</button>
        </div>
    </div>

    <div class="section">
        <h2>2. Send Commands</h2>
        <button onclick="sendStartVideo()" id="btnStartVideo" disabled> START_VIDEO</button>
        <button onclick="sendGetMetadata()" id="btnMetadata" disabled> GET_METADATA</button>
        <button onclick="sendCustom()" id="btnCustom" disabled> Custom Command</button>
    </div>

    <div class="section">
        <h2>3. Event Log</h2>
        <ul id="event-log"></ul>
    </div>
</body>
</html>
"#;

/// The style sheet.
pub const STYLE_CSS: &'static str = r#"
body {
    font-family: 'Segoe UI', Tahoma, Geneva, Verdana, sans-serif;
    max-width: 900px;
    margin: 0 auto;
    padding: 20px;
    background-color: #f5f5f5;
}

h1 {
    text-align: center;
    color: #333;
    margin-bottom: 30px;
}

h2 {
    color: #555;
    border-bottom: 2px solid #4CAF50;
    padding-bottom: 5px;
    font-size: 1.2em;
}

.section {
    background: white;
    padding: 20px;
    margin-bottom: 20px;
    border-radius: 8px;
    box-shadow: 0 2px 4px rgba(0,0,0,0.1);
}

.input-line {
    display: flex;
    gap: 10px;
    align-items: center;
    margin-bottom: 15px;
}

.input-line label {
    font-weight: bold;
    min-width: 100px;
}

.input-line input[type="text"] {
    flex: 1;
    padding: 8px;
    border: 1px solid #ddd;
    border-radius: 4px;
    font-family: monospace;
}

button {
    padding: 10px 20px;
    margin: 5px;
    border: none;
    border-radius: 4px;
    background-color: #4CAF50;
    color: white;
    font-size: 14px;
    cursor: pointer;
    transition: background-color 0.3s;
}

button:hover:not(:disabled) {
    background-color: #45a049;
}

button:disabled {
    background-color: #cccccc;
    cursor: not-allowed;
}

#event-log {
    list-style: none;
    padding: 0;
    max-height: 400px;
    overflow-y: auto;
    background: #f9f9f9;
    border: 1px solid #ddd;
    border-radius: 4px;
    font-family: 'Courier New', monospace;
    font-size: 12px;
}

#event-log li {
    padding: 8px 12px;
    border-bottom: 1px solid #eee;
}

#event-log li:last-child {
    border-bottom: none;
}

.log-info { color: #2196F3; }
.log-success { color: #4CAF50; font-weight: bold; }
.log-error { color: #f44336; font-weight: bold; }
.log-warning { color: #FF9800; }
"#;

/// The script. `${CERT_DIGEST}` stands for the digest of the leaf certificate,
/// as the contents of a byte array.
pub const CLIENT_JS: &'static str = r#"
const CERT_HASH = new Uint8Array(${CERT_DIGEST});

let currentTransport = null;

function addLog(message, type = 'info') {
    const log = document.getElementById('event-log');
    const entry = document.createElement('li');
    entry.className = `log-${type}`;
    entry.textContent = `[${new Date().toLocaleTimeString()}] ${message}`;
    log.appendChild(entry);
    log.scrollTop = log.scrollHeight;
}

async function connect() {
    const url = document.getElementById('url').value;

    try {
        addLog('Connecting to ' + url, 'info');

        const transport = new WebTransport(url, {
            serverCertificateHashes: [{
                algorithm: 'sha-256',
                value: CERT_HASH.buffer
            }]
        });

        await transport.ready;
        addLog('Connected successfully!', 'success');

        currentTransport = transport;

        // Enable buttons
        document.getElementById('btnStartVideo').disabled = false;
        document.getElementById('btnMetadata').disabled = false;
        document.getElementById('btnCustom').disabled = false;
        document.getElementById('connect').disabled = true;

        // Handle closure
        transport.closed.then(() => {
            addLog('Connection closed normally', 'info');
        }).catch((error) => {
            addLog('Connection closed with error: ' + error, 'error');
        });

    } catch (error) {
        addLog('Connection failed: ' + error, 'error');
    }
}

async function sendStartVideo() {
    await sendCommand('START_VIDEO');
}

async function sendGetMetadata() {
    await sendCommand('GET_METADATA');
}

async function sendCustom() {
    const command = prompt('Enter custom command:', 'HELLO');
    if (command) {
        await sendCommand(command);
    }
}

async function sendCommand(command) {
    if (!currentTransport) {
        addLog('Not connected!', 'error');
        return;
    }

    try {
        addLog('Sending: ' + command, 'info');

        const stream = await currentTransport.createBidirectionalStream();
        const writer = stream.writable.getWriter();
        const reader = stream.readable.getReader();

        const encoder = new TextEncoder();
        await writer.write(encoder.encode(command));
        await writer.close();

        const { value, done } = await reader.read();
        if (!done && value) {
            const decoder = new TextDecoder();
            const response = decoder.decode(value);
            addLog('Response: ' + response, 'success');
        }

    } catch (error) {
        addLog('Error: ' + error, 'error');
    }
}
"#;

/// Where the dollar sign of the document stands: at index 481, where it opens
/// the placeholder.
proof fn lemma_port_layout()
    ensures
        INDEX_HTML@.len() == 1064,
        INDEX_HTML@.subrange(481, 501) == "${WEBTRANSPORT_PORT}"@,
        forall|j: int| 0 <= j < 1064 && INDEX_HTML@[j] == '$' ==> j == 481,
{
    reveal_strlit(r#"
<!DOCTYPE html>
<html lang="en">
<head>
    <meta charset="UTF-8">
    <title>Video Streaming - WebTransport</title>
    <link rel="stylesheet" href="style.css">
    <script src="client.js"></script>
</head>
<body>
    <h1> Video Streaming - WebTransport Demo</h1>

    <div class="section">
        <h2>1. Establish Connection</h2>
        <div class="input-line">
            <label for="url">Server URL:</label>
            <input type="text" id="url" value="https://localhost:${WEBTRANSPORT_PORT}/">
            <button id="connect" onclick="connect()">Connect</button>
        </div>
    </div>

    <div class="section">
        <h2>2. Send Commands</h2>
        <button onclick="sendStartVideo()" id="btnStartVideo" disabled> START_VIDEO</button>
        <button onclick="sendGetMetadata()" id="btnMetadata" disabled> GET_METADATA</button>
        <button onclick="sendCustom()" id="btnCustom" disabled> Custom Command</button>
    </div>

    <div class="section">
        <h2>3. Event Log</h2>
        <ul id="event-log"></ul>
    </div>
</body>
</html>
"#);
    reveal_strlit("${WEBTRANSPORT_PORT}");
    let text = INDEX_HTML@;
    assert(text.subrange(481, 501) =~= "${WEBTRANSPORT_PORT}"@);
    assert(clear_of(text, '$', 0, 48)) by {
        reveal_with_fuel(free_of, 50);
        lemma_free_is_clear(text, '$', 0, 48);
    }
    assert(clear_of(text, '$', 48, 96)) by {
        reveal_with_fuel(free_of, 50);
        lemma_free_is_clear(text, '$', 48, 96);
    }
    assert(clear_of(text, '$', 96, 144)) by {
        reveal_with_fuel(free_of, 50);
        lemma_free_is_clear(text, '$', 96, 144);
    }
    assert(clear_of(text, '$', 144, 192)) by {
        reveal_with_fuel(free_of, 50);
        lemma_free_is_clear(text, '$', 144, 192);
    }
    assert(clear_of(text, '$', 192, 240)) by {
        reveal_with_fuel(free_of, 50);
        lemma_free_is_clear(text, '$', 192, 240);
    }
    assert(clear_of(text, '$', 240, 288)) by {
        reveal_with_fuel(free_of, 50);
        lemma_free_is_clear(text, '$', 240, 288);
    }
    assert(clear_of(text, '$', 288, 336)) by {
        reveal_with_fuel(free_of, 50);
        lemma_free_is_clear(text, '$', 288, 336);
    }
    assert(clear_of(text, '$', 336, 384)) by {
        reveal_with_fuel(free_of, 50);
        lemma_free_is_clear(text, '$', 336, 384);
    }
    assert(clear_of(text, '$', 384, 432)) by {
        reveal_with_fuel(free_of, 50);
        lemma_free_is_clear(text, '$', 384, 432);
    }
    assert(clear_of(text, '$', 432, 480)) by {
        reveal_with_fuel(free_of, 50);
        lemma_free_is_clear(text, '$', 432, 480);
    }
    assert(clear_of(text, '$', 480, 481)) by {
        reveal_with_fuel(free_of, 3);
        lemma_free_is_clear(text, '$', 480, 481);
    }
    assert(clear_of(text, '$', 482, 530)) by {
        reveal_with_fuel(free_of, 50);
        lemma_free_is_clear(text, '$', 482, 530);
    }
    assert(clear_of(text, '$', 530, 578)) by {
        reveal_with_fuel(free_of, 50);
        lemma_free_is_clear(text, '$', 530, 578);
    }
    assert(clear_of(text, '$', 578, 626)) by {
        reveal_with_fuel(free_of, 50);
        lemma_free_is_clear(text, '$', 578, 626);
    }
    assert(clear_of(text, '$', 626, 674)) by {
        reveal_with_fuel(free_of, 50);
        lemma_free_is_clear(text, '$', 626, 674);
    }
    assert(clear_of(text, '$', 674, 722)) by {
        reveal_with_fuel(free_of, 50);
        lemma_free_is_clear(text, '$', 674, 722);
    }
    assert(clear_of(text, '$', 722, 770)) by {
        reveal_with_fuel(free_of, 50);
        lemma_free_is_clear(text, '$', 722, 770);
    }
    assert(clear_of(text, '$', 770, 818)) by {
        reveal_with_fuel(free_of, 50);
        lemma_free_is_clear(text, '$', 770, 818);
    }
    assert(clear_of(text, '$', 818, 866)) by {
        reveal_with_fuel(free_of, 50);
        lemma_free_is_clear(text, '$', 818, 866);
    }
    assert(clear_of(text, '$', 866, 914)) by {
        reveal_with_fuel(free_of, 50);
        lemma_free_is_clear(text, '$', 866, 914);
    }
    assert(clear_of(text, '$', 914, 962)) by {
        reveal_with_fuel(free_of, 50);
        lemma_free_is_clear(text, '$', 914, 962);
    }
    assert(clear_of(text, '$', 962, 1010)) by {
        reveal_with_fuel(free_of, 50);
        lemma_free_is_clear(text, '$', 962, 1010);
    }
    assert(clear_of(text, '$', 1010, 1058)) by {
        reveal_with_fuel(free_of, 50);
        lemma_free_is_clear(text, '$', 1010, 1058);
    }
    assert(clear_of(text, '$', 1058, 1064)) by {
        reveal_with_fuel(free_of, 8);
        lemma_free_is_clear(text, '$', 1058, 1064);
    }
    assert forall|j: int| 0 <= j < 1064 && text[j] == '$' implies j == 481 by {
        reveal(clear_of);
    }
}

/// The document names its value in one place: the placeholder stands at index 481
/// and nowhere else.
pub proof fn lemma_port_placeholder_once()
    ensures
        forall|j: int| occurs_at(INDEX_HTML@, "${WEBTRANSPORT_PORT}"@, j) <==> j == 481,
{
    lemma_port_layout();
    reveal_strlit("${WEBTRANSPORT_PORT}");
    let text = INDEX_HTML@;
    let pattern = "${WEBTRANSPORT_PORT}"@;
    assert forall|j: int| occurs_at(text, pattern, j) implies j == 481 by {
        assert(text.subrange(j, j + 20)[0] == text[j]);
        assert(text.subrange(j, j + 20)[2] == text[j + 2]);
    }
}

/// Where the dollar signs of the script stand: the one at index 34 opens the
/// placeholder; the others open expressions of the script itself.
proof fn lemma_digest_layout()
    ensures
        CLIENT_JS@.len() == 2603,
        CLIENT_JS@.subrange(34, 48) == "${CERT_DIGEST}"@,
        forall|j: int|
            0 <= j < 2603 && CLIENT_JS@[j] == '$' ==> j == 34 || j == 253 || j == 289 || j == 325,
        CLIENT_JS@[255] != 'C',
        CLIENT_JS@[291] != 'C',
        CLIENT_JS@[327] != 'C',
{
    reveal_strlit(r#"
const CERT_HASH = new Uint8Array(${CERT_DIGEST});

let currentTransport = null;

function addLog(message, type = 'info') {
    const log = document.getElementById('event-log');
    const entry = document.createElement('li');
    entry.className = `log-${type}`;
    entry.textContent = `[${new Date().toLocaleTimeString()}] ${message}`;
    log.appendChild(entry);
    log.scrollTop = log.scrollHeight;
}

async function connect() {
    const url = document.getElementById('url').value;

    try {
        addLog('Connecting to ' + url, 'info');

        const transport = new WebTransport(url, {
            serverCertificateHashes: [{
                algorithm: 'sha-256',
                value: CERT_HASH.buffer
            }]
        });

        await transport.ready;
        addLog('Connected successfully!', 'success');

        currentTransport = transport;

        // Enable buttons
        document.getElementById('btnStartVideo').disabled = false;
        document.getElementById('btnMetadata').disabled = false;
        document.getElementById('btnCustom').disabled = false;
        document.getElementById('connect').disabled = true;

        // Handle closure
        transport.closed.then(() => {
            addLog('Connection closed normally', 'info');
        }).catch((error) => {
            addLog('Connection closed with error: ' + error, 'error');
        });

    } catch (error) {
        addLog('Connection failed: ' + error, 'error');
    }
}

async function sendStartVideo() {
    await sendCommand('START_VIDEO');
}

async function sendGetMetadata() {
    await sendCommand('GET_METADATA');
}

async function sendCustom() {
    const command = prompt('Enter custom command:', 'HELLO');
    if (command) {
        await sendCommand(command);
    }
}

async function sendCommand(command) {
    if (!currentTransport) {
        addLog('Not connected!', 'error');
        return;
    }

    try {
        addLog('Sending: ' + command, 'info');

        const stream = await currentTransport.createBidirectionalStream();
        const writer = stream.writable.getWriter();
        const reader = stream.readable.getReader();

        const encoder = new TextEncoder();
        await writer.write(encoder.encode(command));
        await writer.close();

        const { value, done } = await reader.read();
        if (!done && value) {
            const decoder = new TextDecoder();
            const response = decoder.decode(value);
            addLog('Response: ' + response, 'success');
        }

    } catch (error) {
        addLog('Error: ' + error, 'error');
    }
}
"#);
    reveal_strlit("${CERT_DIGEST}");
    let text = CLIENT_JS@;
    assert(text.subrange(34, 48) =~= "${CERT_DIGEST}"@);
    assert(clear_of(text, '$', 0, 34)) by {
        reveal_with_fuel(free_of, 36);
        lemma_free_is_clear(text, '$', 0, 34);
    }
    assert(clear_of(text, '$', 35, 83)) by {
        reveal_with_fuel(free_of, 50);
        lemma_free_is_clear(text, '$', 35, 83);
    }
    assert(clear_of(text, '$', 83, 131)) by {
        reveal_with_fuel(free_of, 50);
        lemma_free_is_clear(text, '$', 83, 131);
    }
    assert(clear_of(text, '$', 131, 179)) by {
        reveal_with_fuel(free_of, 50);
        lemma_free_is_clear(text, '$', 131, 179);
    }
    assert(clear_of(text, '$', 179, 227)) by {
        reveal_with_fuel(free_of, 50);
        lemma_free_is_clear(text, '$', 179, 227);
    }
    assert(clear_of(text, '$', 227, 253)) by {
        reveal_with_fuel(free_of, 28);
        lemma_free_is_clear(text, '$', 227, 253);
    }
    assert(clear_of(text, '$', 254, 289)) by {
        reveal_with_fuel(free_of, 37);
        lemma_free_is_clear(text, '$', 254, 289);
    }
    assert(clear_of(text, '$', 290, 325)) by {
        reveal_with_fuel(free_of, 37);
        lemma_free_is_clear(text, '$', 290, 325);
    }
    assert(clear_of(text, '$', 326, 374)) by {
        reveal_with_fuel(free_of, 50);
        lemma_free_is_clear(text, '$', 326, 374);
    }
    assert(clear_of(text, '$', 374, 422)) by {
        reveal_with_fuel(free_of, 50);
        lemma_free_is_clear(text, '$', 374, 422);
    }
    assert(clear_of(text, '$', 422, 470)) by {
        reveal_with_fuel(free_of, 50);
        lemma_free_is_clear(text, '$', 422, 470);
    }
    assert(clear_of(text, '$', 470, 518)) by {
        reveal_with_fuel(free_of, 50);
        lemma_free_is_clear(text, '$', 470, 518);
    }
    assert(clear_of(text, '$', 518, 566)) by {
        reveal_with_fuel(free_of, 50);
        lemma_free_is_clear(text, '$', 518, 566);
    }
    assert(clear_of(text, '$', 566, 614)) by {
        reveal_with_fuel(free_of, 50);
        lemma_free_is_clear(text, '$', 566, 614);
    }
    assert(clear_of(text, '$', 614, 662)) by {
        reveal_with_fuel(free_of, 50);
        lemma_free_is_clear(text, '$', 614, 662);
    }
    assert(clear_of(text, '$', 662, 710)) by {
        reveal_with_fuel(free_of, 50);
        lemma_free_is_clear(text, '$', 662, 710);
    }
    assert(clear_of(text, '$', 710, 758)) by {
        reveal_with_fuel(free_of, 50);
        lemma_free_is_clear(text, '$', 710, 758);
    }
    assert(clear_of(text, '$', 758, 806)) by {
        reveal_with_fuel(free_of, 50);
        lemma_free_is_clear(text, '$', 758, 806);
    }
    assert(clear_of(text, '$', 806, 854)) by {
        reveal_with_fuel(free_of, 50);
        lemma_free_is_clear(text, '$', 806, 854);
    }
    assert(clear_of(text, '$', 854, 902)) by {
        reveal_with_fuel(free_of, 50);
        lemma_free_is_clear(text, '$', 854, 902);
    }
    assert(clear_of(text, '$', 902, 950)) by {
        reveal_with_fuel(free_of, 50);
        lemma_free_is_clear(text, '$', 902, 950);
    }
    assert(clear_of(text, '$', 950, 998)) by {
        reveal_with_fuel(free_of, 50);
        lemma_free_is_clear(text, '$', 950, 998);
    }
    assert(clear_of(text, '$', 998, 1046)) by {
        reveal_with_fuel(free_of, 50);
        lemma_free_is_clear(text, '$', 998, 1046);
    }
    assert(clear_of(text, '$', 1046, 1094)) by {
        reveal_with_fuel(free_of, 50);
        lemma_free_is_clear(text, '$', 1046, 1094);
    }
    assert(clear_of(text, '$', 1094, 1142)) by {
        reveal_with_fuel(free_of, 50);
        lemma_free_is_clear(text, '$', 1094, 1142);
    }
    assert(clear_of(text, '$', 1142, 1190)) by {
        reveal_with_fuel(free_of, 50);
        lemma_free_is_clear(text, '$', 1142, 1190);
    }
    assert(clear_of(text, '$', 1190, 1238)) by {
        reveal_with_fuel(free_of, 50);
        lemma_free_is_clear(text, '$', 1190, 1238);
    }
    assert(clear_of(text, '$', 1238, 1286)) by {
        reveal_with_fuel(free_of, 50);
        lemma_free_is_clear(text, '$', 1238, 1286);
    }
    assert(clear_of(text, '$', 1286, 1334)) by {
        reveal_with_fuel(free_of, 50);
        lemma_free_is_clear(text, '$', 1286, 1334);
    }
    assert(clear_of(text, '$', 1334, 1382)) by {
        reveal_with_fuel(free_of, 50);
        lemma_free_is_clear(text, '$', 1334, 1382);
    }
    assert(clear_of(text, '$', 1382, 1430)) by {
        reveal_with_fuel(free_of, 50);
        lemma_free_is_clear(text, '$', 1382, 1430);
    }
    assert(clear_of(text, '$', 1430, 1478)) by {
        reveal_with_fuel(free_of, 50);
        lemma_free_is_clear(text, '$', 1430, 1478);
    }
    assert(clear_of(text, '$', 1478, 1526)) by {
        reveal_with_fuel(free_of, 50);
        lemma_free_is_clear(text, '$', 1478, 1526);
    }
    assert(clear_of(text, '$', 1526, 1574)) by {
        reveal_with_fuel(free_of, 50);
        lemma_free_is_clear(text, '$', 1526, 1574);
    }
    assert(clear_of(text, '$', 1574, 1622)) by {
        reveal_with_fuel(free_of, 50);
        lemma_free_is_clear(text, '$', 1574, 1622);
    }
    assert(clear_of(text, '$', 1622, 1670)) by {
        reveal_with_fuel(free_of, 50);
        lemma_free_is_clear(text, '$', 1622, 1670);
    }
    assert(clear_of(text, '$', 1670, 1718)) by {
        reveal_with_fuel(free_of, 50);
        lemma_free_is_clear(text, '$', 1670, 1718);
    }
    assert(clear_of(text, '$', 1718, 1766)) by {
        reveal_with_fuel(free_of, 50);
        lemma_free_is_clear(text, '$', 1718, 1766);
    }
    assert(clear_of(text, '$', 1766, 1814)) by {
        reveal_with_fuel(free_of, 50);
        lemma_free_is_clear(text, '$', 1766, 1814);
    }
    assert(clear_of(text, '$', 1814, 1862)) by {
        reveal_with_fuel(free_of, 50);
        lemma_free_is_clear(text, '$', 1814, 1862);
    }
    assert(clear_of(text, '$', 1862, 1910)) by {
        reveal_with_fuel(free_of, 50);
        lemma_free_is_clear(text, '$', 1862, 1910);
    }
    assert(clear_of(text, '$', 1910, 1958)) by {
        reveal_with_fuel(free_of, 50);
        lemma_free_is_clear(text, '$', 1910, 1958);
    }
    assert(clear_of(text, '$', 1958, 2006)) by {
        reveal_with_fuel(free_of, 50);
        lemma_free_is_clear(text, '$', 1958, 2006);
    }
    assert(clear_of(text, '$', 2006, 2054)) by {
        reveal_with_fuel(free_of, 50);
        lemma_free_is_clear(text, '$', 2006, 2054);
    }
    assert(clear_of(text, '$', 2054, 2102)) by {
        reveal_with_fuel(free_of, 50);
        lemma_free_is_clear(text, '$', 2054, 2102);
    }
    assert(clear_of(text, '$', 2102, 2150)) by {
        reveal_with_fuel(free_of, 50);
        lemma_free_is_clear(text, '$', 2102, 2150);
    }
    assert(clear_of(text, '$', 2150, 2198)) by {
        reveal_with_fuel(free_of, 50);
        lemma_free_is_clear(text, '$', 2150, 2198);
    }
    assert(clear_of(text, '$', 2198, 2246)) by {
        reveal_with_fuel(free_of, 50);
        lemma_free_is_clear(text, '$', 2198, 2246);
    }
    assert(clear_of(text, '$', 2246, 2294)) by {
        reveal_with_fuel(free_of, 50);
        lemma_free_is_clear(text, '$', 2246, 2294);
    }
    assert(clear_of(text, '$', 2294, 2342)) by {
        reveal_with_fuel(free_of, 50);
        lemma_free_is_clear(text, '$', 2294, 2342);
    }
    assert(clear_of(text, '$', 2342, 2390)) by {
        reveal_with_fuel(free_of, 50);
        lemma_free_is_clear(text, '$', 2342, 2390);
    }
    assert(clear_of(text, '$', 2390, 2438)) by {
        reveal_with_fuel(free_of, 50);
        lemma_free_is_clear(text, '$', 2390, 2438);
    }
    assert(clear_of(text, '$', 2438, 2486)) by {
        reveal_with_fuel(free_of, 50);
        lemma_free_is_clear(text, '$', 2438, 2486);
    }
    assert(clear_of(text, '$', 2486, 2534)) by {
        reveal_with_fuel(free_of, 50);
        lemma_free_is_clear(text, '$', 2486, 2534);
    }
    assert(clear_of(text, '$', 2534, 2582)) by {
        reveal_with_fuel(free_of, 50);
        lemma_free_is_clear(text, '$', 2534, 2582);
    }
    assert(clear_of(text, '$', 2582, 2603)) by {
        reveal_with_fuel(free_of, 23);
        lemma_free_is_clear(text, '$', 2582, 2603);
    }
    assert forall|j: int| 0 <= j < 2603 && text[j] == '$' implies j == 34 || j == 253 || j == 289
        || j == 325 by {
        reveal(clear_of);
    }
}

/// The script names its value in one place: the placeholder stands at index 34
/// and nowhere else.
pub proof fn lemma_digest_placeholder_once()
    ensures
        forall|j: int| occurs_at(CLIENT_JS@, "${CERT_DIGEST}"@, j) <==> j == 34,
{
    lemma_digest_layout();
    reveal_strlit("${CERT_DIGEST}");
    let text = CLIENT_JS@;
    let pattern = "${CERT_DIGEST}"@;
    assert forall|j: int| occurs_at(text, pattern, j) implies j == 34 by {
        assert(text.subrange(j, j + 14)[0] == text[j]);
        assert(text.subrange(j, j + 14)[2] == text[j + 2]);
    }
}

} // verus!
